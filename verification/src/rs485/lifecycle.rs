//! The lifecycle test of the kernel modules, run by the first process of a
//! disposable machine.

use vstd::prelude::*;
use vstd::string::*;
use crate::error::{Error, ErrorKind};

verus! {

/// How often the module of the character device is loaded and unloaded.
pub const CYCLES: u32 = 3;

/// The module is in use.
pub const EWOULDBLOCK: i32 = 11;

/// The module was in use, as it has to be while the device is open.
pub open spec fn withstood(result: Result<(), Error>) -> bool {
    result is Err && result->Err_0.kind == ErrorKind::Os(EWOULDBLOCK)
}

/// What the test does next.
#[derive(Clone, Copy, Debug, PartialEq, Eq, Structural)]
pub enum LifecycleStep {
    /// Create `/dev` and `/proc` where they are missing.
    CreateDirectories,
    /// Mount the device file system.
    MountDev,
    /// Mount the process file system.
    MountProc,
    /// Load the module of the character device.
    Load,
    /// Open the character device.
    Open,
    /// Try to unload the module while the device is open, and close it.
    UnloadOpen,
    /// Run the regression test of the character device.
    Regression,
    /// Unload the module; the cycle has then passed.
    Unload,
    /// Load the module of the UART.
    LoadUart,
    /// Unload it.
    UnloadUart,
    /// Nothing; the test has passed.
    Done,
    /// Nothing; the test has failed.
    Failed,
}

/// What a step came back with.
#[derive(Debug)]
pub enum LifecycleReply {
    Finished(Result<(), Error>),
    /// What came of unloading the module, and the text that shows it.
    Unloaded { result: Result<(), Error>, shown: String },
    /// The regression test ran, and passed or did not.
    Ran(Result<bool, Error>),
}

/// The lifecycle test.
#[derive(Clone, Copy, Debug, PartialEq, Eq, Structural)]
pub struct Lifecycle {
    /// Cycles that have passed.
    pub cycle: u32,
    pub step: LifecycleStep,
}

impl Lifecycle {
    /// The test at another step.
    pub open spec fn at(self, step: LifecycleStep) -> Lifecycle {
        Lifecycle { step, ..self }
    }

    /// `reply` is one to the current step.
    pub open spec fn expects(self, reply: LifecycleReply) -> bool {
        match self.step {
            LifecycleStep::UnloadOpen => reply is Unloaded,
            LifecycleStep::Regression => reply is Ran,
            LifecycleStep::Done => false,
            LifecycleStep::Failed => false,
            _ => reply is Finished,
        }
    }

    /// The test after a step that has finished.
    pub open spec fn step_finished(self) -> Lifecycle {
        match self.step {
            LifecycleStep::CreateDirectories => self.at(LifecycleStep::MountDev),
            LifecycleStep::MountDev => self.at(LifecycleStep::MountProc),
            LifecycleStep::MountProc => self.at(LifecycleStep::Load),
            LifecycleStep::Load => self.at(LifecycleStep::Open),
            LifecycleStep::Open => self.at(LifecycleStep::UnloadOpen),
            LifecycleStep::Unload => Lifecycle {
                cycle: (self.cycle + 1) as u32,
                step: if self.cycle + 1 < CYCLES {
                    LifecycleStep::Load
                } else {
                    LifecycleStep::LoadUart
                },
            },
            LifecycleStep::LoadUart => self.at(LifecycleStep::UnloadUart),
            _ => self.at(LifecycleStep::Done),
        }
    }

    /// The test goes on after `reply`.
    pub open spec fn goes_on(self, reply: LifecycleReply, after: Lifecycle) -> bool {
        match reply {
            LifecycleReply::Finished(result) => result is Ok && after == self.step_finished(),
            LifecycleReply::Unloaded { result, .. } => withstood(result) && after == self.at(
                LifecycleStep::Regression,
            ),
            LifecycleReply::Ran(result) => result == Ok::<bool, Error>(true) && after == self.at(
                LifecycleStep::Unload,
            ),
        }
    }

    /// The test ends with `error` after `reply`.
    pub open spec fn fails(self, reply: LifecycleReply, error: Error) -> bool {
        match reply {
            LifecycleReply::Finished(result) => result == Err::<(), Error>(error),
            LifecycleReply::Unloaded { result, shown } => !withstood(result) && error.is(
                ErrorKind::Other,
                "unload while open: "@ + shown@,
            ),
            LifecycleReply::Ran(Ok(passed)) => !passed && error.is(
                ErrorKind::Other,
                "character-device regression failed"@,
            ),
            LifecycleReply::Ran(Err(failure)) => error == failure,
        }
    }

    /// The cycles have passed by the time the other module is loaded.
    pub open spec fn wf(self) -> bool {
        match self.step {
            LifecycleStep::LoadUart | LifecycleStep::UnloadUart | LifecycleStep::Done => self.cycle
                == CYCLES,
            LifecycleStep::Failed => true,
            _ => self.cycle < CYCLES,
        }
    }

    /// Number of steps that are at most still to come.
    pub open spec fn left(self) -> int {
        let cycles = 5 * (CYCLES - self.cycle);
        match self.step {
            LifecycleStep::CreateDirectories => cycles + 5,
            LifecycleStep::MountDev => cycles + 4,
            LifecycleStep::MountProc => cycles + 3,
            LifecycleStep::Load => cycles + 2,
            LifecycleStep::Open => cycles + 1,
            LifecycleStep::UnloadOpen => cycles,
            LifecycleStep::Regression => cycles - 1,
            LifecycleStep::Unload => cycles - 2,
            LifecycleStep::LoadUart => 2,
            LifecycleStep::UnloadUart => 1,
            _ => 0,
        }
    }

    /// Begins the test.
    pub fn new() -> (lifecycle: Lifecycle)
        ensures
            lifecycle == (Lifecycle { cycle: 0, step: LifecycleStep::CreateDirectories }),
            lifecycle.wf(),
    {
        Lifecycle { cycle: 0, step: LifecycleStep::CreateDirectories }
    }

    /// Takes the reply to the current step.
    pub fn resume(&mut self, reply: LifecycleReply) -> (result: Result<(), Error>)
        requires
            old(self).wf(),
            old(self).expects(reply),
        ensures
            final(self).wf(),
            0 <= final(self).left() < old(self).left(),
            match result {
                Ok(()) => old(self).goes_on(reply, *final(self)),
                Err(error) => {
                    &&& old(self).fails(reply, error)
                    &&& *final(self) == old(self).at(LifecycleStep::Failed)
                },
            },
    {
        let step = self.step;
        self.step = LifecycleStep::Failed;
        match reply {
            LifecycleReply::Finished(Ok(())) => {
                self.step = match step {
                    LifecycleStep::CreateDirectories => LifecycleStep::MountDev,
                    LifecycleStep::MountDev => LifecycleStep::MountProc,
                    LifecycleStep::MountProc => LifecycleStep::Load,
                    LifecycleStep::Load => LifecycleStep::Open,
                    LifecycleStep::Open => LifecycleStep::UnloadOpen,
                    LifecycleStep::Unload => {
                        self.cycle = self.cycle + 1;
                        if self.cycle < CYCLES {
                            LifecycleStep::Load
                        } else {
                            LifecycleStep::LoadUart
                        }
                    },
                    LifecycleStep::LoadUart => LifecycleStep::UnloadUart,
                    _ => LifecycleStep::Done,
                };
                Ok(())
            },
            LifecycleReply::Finished(Err(error)) => Err(error),
            LifecycleReply::Unloaded { result, shown } => {
                if let Err(error) = &result {
                    if let ErrorKind::Os(number) = error.kind {
                        if number == EWOULDBLOCK {
                            self.step = LifecycleStep::Regression;
                            return Ok(());
                        }
                    }
                }
                let mut message = "unload while open: ".to_owned();
                message.append(shown.as_str());
                Err(Error { kind: ErrorKind::Other, message })
            },
            LifecycleReply::Ran(Ok(passed)) => {
                if !passed {
                    return Err(
                        Error::new(ErrorKind::Other, "character-device regression failed"),
                    );
                }
                self.step = LifecycleStep::Unload;
                Ok(())
            },
            LifecycleReply::Ran(Err(error)) => Err(error),
        }
    }
}

// ---------------------------------------------------------------------------
// Laws
// ---------------------------------------------------------------------------

/// The module is never unloaded for good without a regression test that passed
/// and without having withstood being unloaded while in use.
pub proof fn law_every_cycle_is_tested(
    before: Lifecycle,
    first: LifecycleReply,
    tested: Lifecycle,
    second: LifecycleReply,
    after: Lifecycle,
)
    requires
        before.expects(first),
        before.goes_on(first, tested),
        tested.expects(second),
        tested.goes_on(second, after),
        after.step == LifecycleStep::Unload,
    ensures
        before.step == LifecycleStep::UnloadOpen,
        first is Unloaded,
        withstood(first->result),
        tested.step == LifecycleStep::Regression,
        second == LifecycleReply::Ran(Ok(true)),
{
}

/// The course of the test. After the file systems it goes three times through
/// loading the module, opening the device, failing to unload it with error
/// number 11, the regression test and unloading it; then the other module is
/// loaded and unloaded. Anything else ends it.
pub proof fn law_lifecycle_course(
    fresh: Lifecycle,
    lifecycle: &mut Lifecycle,
    reply: LifecycleReply,
    result: Result<(), Error>,
)
    requires
        call_ensures(Lifecycle::new, (), fresh),
        old(lifecycle).wf(),
        old(lifecycle).expects(reply),
        call_ensures(Lifecycle::resume, (lifecycle, reply), result),
    ensures
        fresh.cycle == 0 && fresh.step == LifecycleStep::CreateDirectories,
        result is Err <==> final(lifecycle).step == LifecycleStep::Failed,
        match reply {
            LifecycleReply::Finished(Ok(())) => result is Ok,
            LifecycleReply::Finished(Err(error)) => result == Err::<(), Error>(error),
            LifecycleReply::Unloaded { result: outcome, shown } => {
                &&& result is Ok <==> outcome is Err && outcome->Err_0.kind == ErrorKind::Os(11)
                &&& result is Err ==> result->Err_0.kind == ErrorKind::Other
                    && result->Err_0.message@ == "unload while open: "@ + shown@
            },
            LifecycleReply::Ran(Ok(passed)) => {
                &&& result is Ok <==> passed
                &&& result is Err ==> result->Err_0.kind == ErrorKind::Other
                    && result->Err_0.message@ == "character-device regression failed"@
            },
            LifecycleReply::Ran(Err(error)) => result == Err::<(), Error>(error),
        },
        result is Ok ==> {
            let next = final(lifecycle).step;
            match old(lifecycle).step {
                LifecycleStep::CreateDirectories => next == LifecycleStep::MountDev,
                LifecycleStep::MountDev => next == LifecycleStep::MountProc,
                LifecycleStep::MountProc => next == LifecycleStep::Load,
                LifecycleStep::Load => next == LifecycleStep::Open,
                LifecycleStep::Open => next == LifecycleStep::UnloadOpen,
                LifecycleStep::UnloadOpen => next == LifecycleStep::Regression,
                LifecycleStep::Regression => next == LifecycleStep::Unload,
                LifecycleStep::Unload => {
                    &&& old(lifecycle).cycle < 2 ==> next == LifecycleStep::Load
                    &&& old(lifecycle).cycle == 2 ==> next == LifecycleStep::LoadUart
                    &&& old(lifecycle).cycle <= 2
                },
                LifecycleStep::LoadUart => next == LifecycleStep::UnloadUart,
                LifecycleStep::UnloadUart => next == LifecycleStep::Done,
                _ => false,
            }
        },
        final(lifecycle).cycle == old(lifecycle).cycle + (if result is Ok && old(lifecycle).step
            == LifecycleStep::Unload {
            1int
        } else {
            0
        }),
{
}

} // verus!
