//! DMA engine slave channels: acquiring one, and the checks around a transfer.
//!
//! The engine is the caller's. [`ChannelSetup`] says what to ask it next and is
//! told the answer.

use vstd::prelude::*;
use crate::errno::Errno;
use crate::serial::dma::ChannelRequest;

verus! {

/// What the provider of a channel can do.
#[derive(Clone, Copy, Debug, PartialEq, Eq, Structural)]
pub struct Capabilities {
    /// A transfer can be terminated.
    pub terminate: bool,
    /// A transfer can be paused.
    pub pause: bool,
    /// The residue is only known between whole descriptors.
    pub descriptor_residue: bool,
    /// A callback that was already dispatched can be waited for.
    pub synchronize: bool,
}

/// How a channel is configured. Every access is one byte wide.
#[derive(Clone, Copy, Debug, PartialEq, Eq, Structural)]
pub struct SlaveConfig {
    /// From device to memory.
    pub receive: bool,
    pub src_addr: u64,
    pub dst_addr: u64,
    pub src_maxburst: u32,
    pub dst_maxburst: u32,
}

/// What a channel request needs next.
#[derive(Clone, Copy, Debug, PartialEq, Eq, Structural)]
pub enum SetupStep {
    /// Ask the firmware for the channel of this direction.
    Acquire,
    /// Look up the firmware node of the channel's provider.
    FindFirmware,
    /// Match the provider against `arm,pl330`, whose pause and termination
    /// are known to be synchronous.
    MatchProvider,
    /// Ask for the provider's capabilities.
    QueryCapabilities,
    /// Configure the channel.
    Configure(SlaveConfig),
    /// Allocate a coherent buffer of this size on the provider's device.
    Allocate(usize),
    /// The channel is ready.
    Ready,
    /// The request failed. With `release`, the channel that was acquired is
    /// stopped, waited for and given back.
    Failed { error: Errno, release: bool },
}

/// The answer to a [`SetupStep`].
#[derive(Clone, Copy, Debug)]
pub enum Answer {
    /// The channel was found; the flag tells that there is one behind it.
    Acquired(Result<bool, Errno>),
    /// The provider has a firmware node.
    Firmware(bool),
    Matched(Result<(), Errno>),
    Capable(Result<Capabilities, Errno>),
    Configured(Result<(), Errno>),
    Allocated(Result<(), Errno>),
}

/// A channel that can be stopped reliably, in either direction; reception also
/// needs a pause and a residue that is known within a transfer.
pub open spec fn acceptable(caps: Capabilities, receive: bool) -> bool {
    &&& caps.terminate && caps.synchronize
    &&& receive ==> caps.pause && !caps.descriptor_residue
}

/// The configuration of a requested channel.
pub open spec fn slave_config_of(request: ChannelRequest) -> SlaveConfig {
    SlaveConfig {
        receive: request.receive,
        src_addr: request.fifo,
        dst_addr: request.fifo,
        src_maxburst: request.burst,
        dst_maxburst: request.burst,
    }
}

/// A channel request on its way.
#[derive(Clone, Copy, Debug)]
pub struct ChannelSetup {
    pub request: ChannelRequest,
    pub step: SetupStep,
}

impl ChannelSetup {
    /// `answer` is one to the current step.
    pub open spec fn expects(self, answer: Answer) -> bool {
        match self.step {
            SetupStep::Acquire => answer is Acquired,
            SetupStep::FindFirmware => answer is Firmware,
            SetupStep::MatchProvider => answer is Matched,
            SetupStep::QueryCapabilities => answer is Capable,
            SetupStep::Configure(_) => answer is Configured,
            SetupStep::Allocate(_) => answer is Allocated,
            _ => false,
        }
    }

    /// The step after an answer: the next one, or the failure that it brings.
    pub open spec fn step_after(self, answer: Answer) -> SetupStep {
        match answer {
            Answer::Acquired(Ok(true)) => SetupStep::FindFirmware,
            Answer::Acquired(Ok(false)) => SetupStep::Failed {
                error: Errno::ENODEV,
                release: false,
            },
            Answer::Acquired(Err(error)) => SetupStep::Failed { error, release: false },
            Answer::Firmware(true) => SetupStep::MatchProvider,
            Answer::Firmware(false) => SetupStep::Failed { error: Errno::ENODEV, release: true },
            Answer::Matched(Ok(())) => SetupStep::QueryCapabilities,
            Answer::Matched(Err(error)) => SetupStep::Failed { error, release: true },
            Answer::Capable(Ok(caps)) => if acceptable(caps, self.request.receive) {
                SetupStep::Configure(slave_config_of(self.request))
            } else {
                SetupStep::Failed { error: Errno::EOPNOTSUPP, release: true }
            },
            Answer::Capable(Err(error)) => SetupStep::Failed { error, release: true },
            Answer::Configured(Ok(())) => SetupStep::Allocate(self.request.size),
            Answer::Configured(Err(error)) => SetupStep::Failed { error, release: true },
            Answer::Allocated(Ok(())) => SetupStep::Ready,
            Answer::Allocated(Err(error)) => SetupStep::Failed { error, release: true },
        }
    }

    /// Number of answers that are at most still to come.
    pub open spec fn answers_left(self) -> nat {
        match self.step {
            SetupStep::Acquire => 6,
            SetupStep::FindFirmware => 5,
            SetupStep::MatchProvider => 4,
            SetupStep::QueryCapabilities => 3,
            SetupStep::Configure(_) => 2,
            SetupStep::Allocate(_) => 1,
            _ => 0,
        }
    }

    /// Begins a channel request.
    pub fn new(request: ChannelRequest) -> (setup: Self)
        ensures
            setup == (ChannelSetup { request, step: SetupStep::Acquire }),
    {
        ChannelSetup { request, step: SetupStep::Acquire }
    }

    /// Takes the answer to the current step.
    pub fn resume(&mut self, answer: Answer)
        requires
            old(self).expects(answer),
        ensures
            *final(self) == (ChannelSetup {
                request: old(self).request,
                step: old(self).step_after(answer),
            }),
            final(self).answers_left() < old(self).answers_left(),
    {
        let request = self.request;
        self.step = match answer {
            Answer::Acquired(Ok(present)) => if present {
                SetupStep::FindFirmware
            } else {
                SetupStep::Failed { error: Errno::ENODEV, release: false }
            },
            Answer::Acquired(Err(error)) => SetupStep::Failed { error, release: false },
            Answer::Firmware(present) => if present {
                SetupStep::MatchProvider
            } else {
                SetupStep::Failed { error: Errno::ENODEV, release: true }
            },
            Answer::Matched(Ok(())) => SetupStep::QueryCapabilities,
            Answer::Matched(Err(error)) => SetupStep::Failed { error, release: true },
            Answer::Capable(Ok(caps)) => {
                if !caps.terminate || !caps.synchronize || (request.receive && (!caps.pause
                    || caps.descriptor_residue)) {
                    SetupStep::Failed { error: Errno::EOPNOTSUPP, release: true }
                } else {
                    SetupStep::Configure(
                        SlaveConfig {
                            receive: request.receive,
                            src_addr: request.fifo,
                            dst_addr: request.fifo,
                            src_maxburst: request.burst,
                            dst_maxburst: request.burst,
                        },
                    )
                }
            },
            Answer::Capable(Err(error)) => SetupStep::Failed { error, release: true },
            Answer::Configured(Ok(())) => SetupStep::Allocate(request.size),
            Answer::Configured(Err(error)) => SetupStep::Failed { error, release: true },
            Answer::Allocated(Ok(())) => SetupStep::Ready,
            Answer::Allocated(Err(error)) => SetupStep::Failed { error, release: true },
        };
    }

    /// The channel, once the request has succeeded.
    pub fn channel(&self) -> (channel: Option<Channel>)
        ensures
            channel == if self.step == SetupStep::Ready {
                Some(Channel { buffer: Some(self.request.size), receive: self.request.receive })
            } else {
                None
            },
    {
        match self.step {
            SetupStep::Ready => Some(
                Channel { buffer: Some(self.request.size), receive: self.request.receive },
            ),
            _ => None,
        }
    }
}

/// One exclusive slave channel.
#[derive(Clone, Copy, Debug, PartialEq, Eq, Structural)]
pub struct Channel {
    /// Size of the coherent bounce buffer, once there is one.
    pub buffer: Option<usize>,
    /// From device to memory.
    pub receive: bool,
}

/// A transfer that the engine is asked to prepare, from the start of the
/// buffer. It raises an interrupt at its end and is acknowledged in advance.
#[derive(Clone, Copy, Debug, PartialEq, Eq, Structural)]
pub struct Preparation {
    pub len: usize,
    pub receive: bool,
}

impl Channel {
    /// Checks a transfer of `len` bytes. With `Ok`, the engine prepares and
    /// submits it, and [`Channel::submitted`] takes the answer.
    pub fn submit(&self, len: usize) -> (result: Result<Preparation, Errno>)
        ensures
            match self.buffer {
                None => result == Err::<Preparation, Errno>(Errno::ENODEV),
                Some(size) => result == if 0 < len <= size {
                    Ok::<Preparation, Errno>(Preparation { len, receive: self.receive })
                } else {
                    Err(Errno::EINVAL)
                },
            },
    {
        match self.buffer {
            None => Err(Errno::ENODEV),
            Some(size) => {
                if len == 0 || len > size {
                    return Err(Errno::EINVAL);
                }
                Ok(Preparation { len, receive: self.receive })
            },
        }
    }

    /// Takes the engine's answer to a submission: `None` when it had no
    /// descriptor to prepare, otherwise a cookie, or a negative error number.
    pub fn submitted(answer: Option<i32>) -> (result: Result<i32, Errno>)
        ensures
            match answer {
                None => result == Err::<i32, Errno>(Errno::EBUSY),
                Some(cookie) => match result {
                    Ok(value) => cookie >= 0 && value == cookie,
                    Err(error) => {
                        &&& cookie < 0 && error.number() == cookie
                        &&& error is Other ==> cookie != -11 && cookie != -14 && cookie != -16
                            && cookie != -19 && cookie != -22 && cookie != -95 && cookie != -512
                            && cookie != -517
                    },
                },
            },
    {
        match answer {
            None => Err(Errno::EBUSY),
            Some(cookie) => {
                if cookie < 0 {
                    Err(Errno::from_errno(cookie))
                } else {
                    Ok(cookie)
                }
            },
        }
    }
}

// ---------------------------------------------------------------------------
// Laws
// ---------------------------------------------------------------------------

/// No acquired channel is lost: every failure after the acquisition gives the
/// channel back, and no failure before it does.
pub proof fn law_failed_request_releases(setup: ChannelSetup, answer: Answer)
    requires
        setup.expects(answer),
        setup.step_after(answer) is Failed,
    ensures
        setup.step_after(answer)->release == (setup.step != SetupStep::Acquire),
{
}

/// A channel is only configured once its provider is known to be able to stop
/// it reliably, and, for reception, to pause it with a usable residue.
pub proof fn law_only_capable_channels_are_configured(setup: ChannelSetup, answer: Answer)
    requires
        setup.expects(answer),
        setup.step_after(answer) is Configure,
    ensures
        answer is Capable,
        answer->Capable_0 is Ok,
        acceptable(answer->Capable_0->Ok_0, setup.request.receive),
{
}

/// What a channel request does, step by step, until the channel is ready: each
/// good answer leads on, and each bad one fails the request with the error that
/// it brings. A provider has to be able to terminate and to synchronize a
/// transfer, and for reception to pause it and to know its residue within a
/// descriptor. The channel is configured for the FIFO of the request, at both
/// ends, and gets a buffer of the size that was asked for.
pub proof fn law_channel_request_course(setup: &mut ChannelSetup, answer: Answer)
    requires
        old(setup).expects(answer),
        call_ensures(ChannelSetup::resume, (setup, answer), ()),
    ensures
        final(setup).request == old(setup).request,
        ({
            let request = old(setup).request;
            let step = final(setup).step;
            match answer {
                Answer::Acquired(Ok(present)) => if present {
                    step == SetupStep::FindFirmware
                } else {
                    step == (SetupStep::Failed { error: Errno::ENODEV, release: false })
                },
                Answer::Acquired(Err(e)) => step == (SetupStep::Failed {
                    error: e,
                    release: false,
                }),
                Answer::Firmware(present) => if present {
                    step == SetupStep::MatchProvider
                } else {
                    step == (SetupStep::Failed { error: Errno::ENODEV, release: true })
                },
                Answer::Matched(Ok(())) => step == SetupStep::QueryCapabilities,
                Answer::Capable(Ok(caps)) => if caps.terminate && caps.synchronize && (
                !request.receive || (caps.pause && !caps.descriptor_residue)) {
                    step == SetupStep::Configure(
                        SlaveConfig {
                            receive: request.receive,
                            src_addr: request.fifo,
                            dst_addr: request.fifo,
                            src_maxburst: request.burst,
                            dst_maxburst: request.burst,
                        },
                    )
                } else {
                    step == (SetupStep::Failed { error: Errno::EOPNOTSUPP, release: true })
                },
                Answer::Configured(Ok(())) => step == SetupStep::Allocate(request.size),
                Answer::Allocated(Ok(())) => step == SetupStep::Ready,
                Answer::Matched(Err(e)) | Answer::Capable(Err(e)) | Answer::Configured(Err(e))
                | Answer::Allocated(Err(e)) => step == (SetupStep::Failed {
                    error: e,
                    release: true,
                }),
            }
        }),
{
}

/// A channel that is ready takes transfers of one byte up to the size that was
/// asked for, in the direction that was asked for; others are refused.
pub proof fn law_transfers_fit_the_buffer(
    request: ChannelRequest,
    setup: ChannelSetup,
    channel: Option<Channel>,
    len: usize,
    result: Result<Preparation, Errno>,
)
    requires
        setup.request == request,
        call_ensures(ChannelSetup::channel, (&setup,), channel),
        channel is Some,
        call_ensures(Channel::submit, (&channel->0, len), result),
    ensures
        setup.step == SetupStep::Ready,
        result is Ok <==> 1 <= len <= request.size,
        result is Ok ==> result->Ok_0.len == len && result->Ok_0.receive == request.receive,
        result is Err ==> result->Err_0 == Errno::EINVAL,
{
}

/// A cookie is a number from zero on; a negative number is an error, and no
/// descriptor at all means that the engine is busy.
pub proof fn law_cookies_are_not_negative(
    answer: Option<i32>,
    result: Result<i32, Errno>,
    new: ChannelSetup,
    request: ChannelRequest,
    failure: Errno,
)
    requires
        call_ensures(Channel::submitted, (answer,), result),
        answer is Some ==> call_ensures(Errno::from_errno, (answer->0,), failure),
        call_ensures(ChannelSetup::new, (request,), new),
    ensures
        answer is None ==> result == Err::<i32, Errno>(Errno::EBUSY),
        answer is Some && answer->0 >= 0 ==> result == Ok::<i32, Errno>(answer->0),
        answer is Some && answer->0 < 0 ==> result is Err && result->Err_0 == failure,
        new.request == request && new.step == SetupStep::Acquire,
{
}

/// There is a channel exactly once its request has succeeded; it has the size
/// and the direction that were asked for. A channel without a buffer takes no
/// transfer.
pub proof fn law_channel_is_ready(
    setup: &ChannelSetup,
    channel: Option<Channel>,
    bare: &Channel,
    len: usize,
    result: Result<Preparation, Errno>,
)
    requires
        call_ensures(ChannelSetup::channel, (setup,), channel),
        bare.buffer is None,
        call_ensures(Channel::submit, (bare, len), result),
    ensures
        channel is Some <==> setup.step == SetupStep::Ready,
        channel is Some ==> channel->0.buffer == Some(setup.request.size) && channel->0.receive
            == setup.request.receive,
        result == Err::<Preparation, Errno>(Errno::ENODEV),
{
}

} // verus!
