//! Opening a UART and giving it back as it was.

use vstd::prelude::*;
use crate::bits::lemma_raise_and_lower;
use crate::error::{invalid, Error, ErrorKind};

verus! {

/// Internal loopback among the modem control lines.
pub const TIOCM_LOOP: i32 = 0x8000;

/// The codes that the platform has for the supported rates.
#[derive(Clone, Copy, Debug, PartialEq, Eq, Structural)]
pub struct Speeds {
    pub b9600: u32,
    pub b19200: u32,
    pub b38400: u32,
    pub b57600: u32,
    pub b115200: u32,
    pub b230400: u32,
    pub b460800: u32,
    pub b921600: u32,
    pub b1500000: u32,
}

/// The terminal flags of the platform.
#[derive(Clone, Copy, Debug, PartialEq, Eq, Structural)]
pub struct Flags {
    /// Output is stopped by the other end.
    pub ixon: u32,
    /// The other end is stopped.
    pub ixoff: u32,
    /// Any character starts output again.
    pub ixany: u32,
    /// Mask of the character size.
    pub csize: u32,
    /// Two stop bits.
    pub cstopb: u32,
    /// Parity.
    pub parenb: u32,
    /// Mark or space parity.
    pub cmspar: u32,
    /// Hardware flow control.
    pub crtscts: u32,
    /// Eight data bits.
    pub cs8: u32,
    /// The receiver is enabled.
    pub cread: u32,
    /// The modem status lines are ignored.
    pub clocal: u32,
}

impl Flags {
    /// The flags that are cleared in the control flags of a raw line.
    pub open spec fn cleared(self) -> u32 {
        self.csize | self.cstopb | self.parenb | self.cmspar | self.crtscts
    }

    /// The flags that are then set.
    pub open spec fn raised(self) -> u32 {
        self.cs8 | self.cread | self.clocal
    }

    /// The flags that a driver has to have applied, and no others among them
    /// than eight data bits.
    pub open spec fn tested(self) -> u32 {
        self.csize | self.cstopb | self.parenb | self.crtscts
    }

    /// The flags of the software flow control.
    pub open spec fn flow(self) -> u32 {
        self.ixon | self.ixoff | self.ixany
    }

    /// Eight data bits are a character size, and the other flags that are set
    /// are none of those that are cleared.
    pub open spec fn sound(self) -> bool {
        &&& self.cs8 & self.csize == self.cs8
        &&& self.cs8 & (self.cstopb | self.parenb | self.cmspar | self.crtscts) == 0
        &&& (self.cread | self.clocal) & self.cleared() == 0
    }
}

/// The speed code of a supported rate.
pub open spec fn speed_code(baud: u32, speeds: Speeds) -> Option<u32> {
    if baud == 9600 {
        Some(speeds.b9600)
    } else if baud == 19200 {
        Some(speeds.b19200)
    } else if baud == 38400 {
        Some(speeds.b38400)
    } else if baud == 57600 {
        Some(speeds.b57600)
    } else if baud == 115200 {
        Some(speeds.b115200)
    } else if baud == 230400 {
        Some(speeds.b230400)
    } else if baud == 460800 {
        Some(speeds.b460800)
    } else if baud == 921600 {
        Some(speeds.b921600)
    } else if baud == 1500000 {
        Some(speeds.b1500000)
    } else {
        None
    }
}

/// The speed code of a rate.
pub fn speed(baud: u32, speeds: &Speeds) -> (result: Result<u32, Error>)
    ensures
        match result {
            Ok(code) => speed_code(baud, *speeds) == Some(code),
            Err(error) => speed_code(baud, *speeds) is None && error.is(
                ErrorKind::InvalidInput,
                "unsupported baud rate"@,
            ),
        },
{
    match baud {
        9600 => Ok(speeds.b9600),
        19200 => Ok(speeds.b19200),
        38400 => Ok(speeds.b38400),
        57600 => Ok(speeds.b57600),
        115200 => Ok(speeds.b115200),
        230400 => Ok(speeds.b230400),
        460800 => Ok(speeds.b460800),
        921600 => Ok(speeds.b921600),
        1500000 => Ok(speeds.b1500000),
        _ => Err(invalid("unsupported baud rate")),
    }
}

/// Settings of a terminal: what of them matters here.
#[derive(Clone, Copy, Debug, PartialEq, Eq, Structural)]
pub struct Attributes {
    pub c_iflag: u32,
    pub c_cflag: u32,
    /// Speed code of the output.
    pub speed: u32,
}

/// Settings to be applied. Reads return as soon as there is a byte, so the
/// minimum is one character and there is no timer.
#[derive(Clone, Copy, Debug, PartialEq, Eq, Structural)]
pub struct RawSettings {
    pub c_iflag: u32,
    pub c_cflag: u32,
    pub vmin: u8,
    pub vtime: u8,
    /// Speed code of input and output.
    pub speed: u32,
}

/// Raw settings for eight data bits, one stop bit and no parity, without any
/// flow control.
pub open spec fn raw_settings_of(raw: Attributes, speed: u32, flags: Flags) -> RawSettings {
    RawSettings {
        c_iflag: raw.c_iflag & !flags.flow(),
        c_cflag: (raw.c_cflag & !flags.cleared()) | flags.raised(),
        vmin: 1,
        vtime: 0,
        speed,
    }
}

/// Makes the settings to apply out of raw ones.
fn raw_settings(raw: Attributes, speed: u32, flags: Flags) -> (settings: RawSettings)
    ensures
        settings == raw_settings_of(raw, speed, flags),
{
    RawSettings {
        c_iflag: raw.c_iflag & !(flags.ixon | flags.ixoff | flags.ixany),
        c_cflag: (raw.c_cflag & !(flags.csize | flags.cstopb | flags.parenb | flags.cmspar
            | flags.crtscts)) | (flags.cs8 | flags.cread | flags.clocal),
        vmin: 1,
        vtime: 0,
        speed,
    }
}

/// The driver runs the line as asked: at this speed, with eight data bits, one
/// stop bit, and neither parity nor hardware flow control.
pub open spec fn line_accepted(applied: Attributes, speed: u32, flags: Flags) -> bool {
    applied.speed == speed && applied.c_cflag & flags.tested() == flags.cs8
}

/// What opening a UART needs next.
#[derive(Clone, Copy, Debug, PartialEq, Eq, Structural)]
pub enum OpenStep {
    /// Open the device without blocking on it or making it the controlling
    /// terminal.
    OpenDevice,
    /// Read the settings that are in effect, keep them, and make a copy raw;
    /// the reply is the copy.
    ReadOriginal,
    /// Apply these settings.
    Apply(RawSettings),
    /// Read back the settings that are now in effect.
    ReadApplied,
    /// Discard stale input. Outgoing data is never discarded.
    FlushInput,
    /// Nothing; the UART is open.
    Open,
    /// Nothing; opening it has failed.
    Failed,
}

/// What a step came back with.
#[derive(Debug)]
pub enum OpenReply {
    Finished(Result<(), Error>),
    Settings(Result<Attributes, Error>),
}

/// A UART whose previous settings are restored before it is closed.
#[derive(Clone, Copy, Debug, PartialEq, Eq, Structural)]
pub struct Serial {
    /// The terminal flags of the platform.
    pub flags: Flags,
    /// Speed code that was asked for.
    pub speed: u32,
    /// The previous settings are known, and have to be restored.
    pub restores: bool,
    pub step: OpenStep,
}

impl Serial {
    /// The previous settings are known once they have been read.
    pub open spec fn wf(self) -> bool {
        match self.step {
            OpenStep::OpenDevice => !self.restores,
            OpenStep::ReadOriginal => !self.restores,
            OpenStep::Failed => true,
            _ => self.restores,
        }
    }

    /// `reply` is one to the current step.
    pub open spec fn expects(self, reply: OpenReply) -> bool {
        match self.step {
            OpenStep::ReadOriginal => reply is Settings,
            OpenStep::ReadApplied => reply is Settings,
            OpenStep::Open => false,
            OpenStep::Failed => false,
            _ => reply is Finished,
        }
    }

    /// The UART after a step that reads nothing has succeeded.
    pub open spec fn step_finished(self) -> Serial {
        Serial {
            step: match self.step {
                OpenStep::OpenDevice => OpenStep::ReadOriginal,
                OpenStep::Apply(_) => OpenStep::ReadApplied,
                _ => OpenStep::Open,
            },
            ..self
        }
    }

    /// The UART after settings have been read.
    pub open spec fn settings_read(self, settings: Attributes) -> Serial {
        if self.step is ReadOriginal {
            Serial {
                step: OpenStep::Apply(raw_settings_of(settings, self.speed, self.flags)),
                restores: true,
                ..self
            }
        } else {
            Serial { step: OpenStep::FlushInput, ..self }
        }
    }

    /// Opening goes on after `reply`.
    pub open spec fn goes_on(self, reply: OpenReply, after: Serial) -> bool {
        match reply {
            OpenReply::Finished(result) => result is Ok && after == self.step_finished(),
            OpenReply::Settings(result) => {
                &&& result is Ok
                &&& self.step is ReadApplied ==> line_accepted(
                    result->Ok_0,
                    self.speed,
                    self.flags,
                )
                &&& after == self.settings_read(result->Ok_0)
            },
        }
    }

    /// Opening ends with `error` after `reply`.
    pub open spec fn fails(self, reply: OpenReply, error: Error) -> bool {
        match reply {
            OpenReply::Finished(result) => result == Err::<(), Error>(error),
            OpenReply::Settings(Err(failure)) => error == failure,
            OpenReply::Settings(Ok(settings)) => {
                &&& self.step is ReadApplied
                &&& !line_accepted(settings, self.speed, self.flags)
                &&& error.is(
                    ErrorKind::InvalidInput,
                    "driver did not accept the requested baud rate and 8N1 framing"@,
                )
            },
        }
    }

    /// Begins to open a UART at `baud`. A rate that is not supported is refused
    /// before the device is touched.
    pub fn open(baud: u32, speeds: &Speeds, flags: Flags) -> (result: Result<Serial, Error>)
        ensures
            match result {
                Ok(serial) => {
                    &&& speed_code(baud, *speeds) == Some(serial.speed)
                    &&& serial.flags == flags
                    &&& serial.step == OpenStep::OpenDevice
                    &&& !serial.restores
                    &&& serial.wf()
                },
                Err(error) => speed_code(baud, *speeds) is None && error.is(
                    ErrorKind::InvalidInput,
                    "unsupported baud rate"@,
                ),
            },
    {
        match speed(baud, speeds) {
            Ok(speed) => Ok(
                Serial { flags, speed, restores: false, step: OpenStep::OpenDevice },
            ),
            Err(error) => Err(error),
        }
    }

    /// Takes the reply to the current step.
    pub fn resume(&mut self, reply: OpenReply) -> (result: Result<(), Error>)
        requires
            old(self).wf(),
            old(self).expects(reply),
        ensures
            final(self).wf(),
            match result {
                Ok(()) => old(self).goes_on(reply, *final(self)),
                Err(error) => {
                    &&& old(self).fails(reply, error)
                    &&& *final(self) == (Serial { step: OpenStep::Failed, ..*old(self) })
                },
            },
    {
        match reply {
            OpenReply::Finished(Ok(())) => {
                self.step = match self.step {
                    OpenStep::OpenDevice => OpenStep::ReadOriginal,
                    OpenStep::Apply(_) => OpenStep::ReadApplied,
                    _ => OpenStep::Open,
                };
                Ok(())
            },
            OpenReply::Settings(Ok(settings)) => {
                if let OpenStep::ReadOriginal = self.step {
                    self.restores = true;
                    self.step = OpenStep::Apply(raw_settings(settings, self.speed, self.flags));
                    return Ok(());
                }
                let flags = self.flags;
                if settings.speed != self.speed || settings.c_cflag & (flags.csize | flags.cstopb
                    | flags.parenb | flags.crtscts) != flags.cs8 {
                    self.step = OpenStep::Failed;
                    return Err(
                        invalid("driver did not accept the requested baud rate and 8N1 framing"),
                    );
                }
                self.step = OpenStep::FlushInput;
                Ok(())
            },
            OpenReply::Finished(Err(error)) => {
                self.step = OpenStep::Failed;
                Err(error)
            },
            OpenReply::Settings(Err(error)) => {
                self.step = OpenStep::Failed;
                Err(error)
            },
        }
    }
}

/// Internal loopback, switched on for a test.
#[derive(Clone, Copy, Debug, PartialEq, Eq, Structural)]
pub struct Loopback {
    /// It was on before.
    pub was_enabled: bool,
}

impl Loopback {
    /// Switches loopback on, given the modem control lines before that.
    pub fn enable(previous: i32) -> (loopback: Loopback)
        ensures
            loopback.was_enabled == (previous & TIOCM_LOOP != 0),
    {
        Loopback { was_enabled: previous & TIOCM_LOOP != 0 }
    }

    /// Whether loopback is to be switched off after the test.
    pub fn disables(&self) -> (disables: bool)
        ensures
            disables == !self.was_enabled,
    {
        !self.was_enabled
    }
}

// ---------------------------------------------------------------------------
// Laws
// ---------------------------------------------------------------------------

/// Whatever goes wrong, previous settings that were read are restored, and
/// settings that were not read are not touched.
pub proof fn law_previous_settings_are_restored(serial: Serial, reply: OpenReply, after: Serial)
    requires
        serial.wf(),
        serial.expects(reply),
        serial.goes_on(reply, after),
    ensures
        serial.restores ==> after.restores,
        after.step is Apply ==> after.restores,
        after.step is Open ==> after.restores,
        after.wf(),
{
}

/// The settings that are asked for are ones that the driver can accept: taken
/// as they are, they pass the test on what the driver applied.
pub proof fn law_raw_settings_are_8n1(raw: Attributes, speed: u32, flags: Flags)
    requires
        flags.sound(),
    ensures
        ({
            let settings = raw_settings_of(raw, speed, flags);
            &&& line_accepted(
                Attributes {
                    c_iflag: settings.c_iflag,
                    c_cflag: settings.c_cflag,
                    speed: settings.speed,
                },
                speed,
                flags,
            )
            &&& settings.c_cflag & flags.cmspar == 0
            &&& settings.c_cflag & flags.cread == flags.cread
            &&& settings.c_iflag & flags.flow() == 0
        }),
{
    let cflag = raw.c_cflag;
    let iflag = raw.c_iflag;
    let flow = flags.flow();
    lemma_raise_and_lower(iflag, flow);
    let Flags { csize, cstopb, parenb, cmspar, crtscts, cs8, cread, clocal, .. } = flags;
    let cleared = csize | cstopb | parenb | cmspar | crtscts;
    let set = (cflag & !cleared) | (cs8 | cread | clocal);
    assert(set & (csize | cstopb | parenb | crtscts) == cs8 && set & cmspar == 0 && set & cread
        == cread) by (bit_vector)
        requires
            cleared == csize | cstopb | parenb | cmspar | crtscts,
            set == (cflag & !cleared) | (cs8 | cread | clocal),
            cs8 & csize == cs8,
            cs8 & (cstopb | parenb | cmspar | crtscts) == 0,
            (cread | clocal) & cleared == 0,
    ;
}

/// The nine rates that are supported, each with its own code; at any other a
/// UART is not opened.
pub proof fn law_supported_rates(
    baud: u32,
    speeds: &Speeds,
    flags: Flags,
    code: Result<u32, Error>,
    opened: Result<Serial, Error>,
)
    requires
        call_ensures(speed, (baud, speeds), code),
        call_ensures(Serial::open, (baud, speeds, flags), opened),
    ensures
        code is Ok <==> baud == 9600 || baud == 19200 || baud == 38400 || baud == 57600 || baud
            == 115200 || baud == 230400 || baud == 460800 || baud == 921600 || baud == 1500000,
        code is Ok ==> code->Ok_0 == if baud == 9600 {
            speeds.b9600
        } else if baud == 19200 {
            speeds.b19200
        } else if baud == 38400 {
            speeds.b38400
        } else if baud == 57600 {
            speeds.b57600
        } else if baud == 115200 {
            speeds.b115200
        } else if baud == 230400 {
            speeds.b230400
        } else if baud == 460800 {
            speeds.b460800
        } else if baud == 921600 {
            speeds.b921600
        } else {
            speeds.b1500000
        },
        opened is Ok <==> code is Ok,
        opened is Ok ==> opened->Ok_0 == (Serial {
            flags,
            speed: code->Ok_0,
            restores: false,
            step: OpenStep::OpenDevice,
        }),
        opened is Err ==> opened->Err_0.kind == ErrorKind::InvalidInput
            && opened->Err_0.message@ == "unsupported baud rate"@,
{
}

/// How a UART is opened: the device is opened, its settings are read, raw ones
/// are applied and read back, and stale input is discarded. The settings that
/// are read back decide whether the line runs as asked. Any failure ends it.
pub proof fn law_opening_course(serial: &mut Serial, reply: OpenReply, result: Result<(), Error>)
    requires
        old(serial).wf(),
        old(serial).expects(reply),
        call_ensures(Serial::resume, (serial, reply), result),
    ensures
        final(serial).flags == old(serial).flags,
        final(serial).speed == old(serial).speed,
        result is Err <==> final(serial).step is Failed,
        reply is Finished ==> result is Ok == reply->Finished_0 is Ok,
        reply is Finished && result is Err ==> reply->Finished_0 == Err::<(), Error>(
            result->Err_0,
        ),
        reply is Settings && reply->Settings_0 is Err ==> result is Err && reply->Settings_0
            == Err::<Attributes, Error>(result->Err_0),
        result is Ok ==> match old(serial).step {
            OpenStep::OpenDevice => final(serial).step is ReadOriginal,
            OpenStep::ReadOriginal => final(serial).step is Apply && final(serial).restores,
            OpenStep::Apply(_) => final(serial).step is ReadApplied,
            OpenStep::ReadApplied => final(serial).step is FlushInput,
            OpenStep::FlushInput => final(serial).step is Open,
            _ => false,
        },
        old(serial).step is ReadOriginal && reply->Settings_0 is Ok ==> result is Ok,
        old(serial).step !is ReadOriginal || result is Err
            ==> final(serial).restores == old(serial).restores,
        old(serial).step is ReadApplied && reply->Settings_0 is Ok ==> {
            let flags = old(serial).flags;
            let applied = reply->Settings_0->Ok_0;
            result is Ok <==> applied.speed == old(serial).speed && applied.c_cflag & (flags.csize
                | flags.cstopb | flags.parenb | flags.crtscts) == flags.cs8
        },
        reply is Settings && reply->Settings_0 is Ok && result is Err ==> result->Err_0.kind
            == ErrorKind::InvalidInput && result->Err_0.message@
            == "driver did not accept the requested baud rate and 8N1 framing"@,
{
}

/// The settings that are applied. Of the input flags only those of the software
/// flow control change, which are cleared. Of the control flags character size,
/// stop bits, parity and hardware flow control are cleared, eight data bits, the
/// receiver and the disregard of the modem lines are set, and every other flag
/// keeps its value. A read returns with one character and without a timer.
pub proof fn law_settings_are_made_raw(
    serial: &mut Serial,
    original: Attributes,
    result: Result<(), Error>,
    other: u32,
)
    requires
        old(serial).wf(),
        old(serial).step is ReadOriginal,
        call_ensures(
            Serial::resume,
            (serial, OpenReply::Settings(Ok::<Attributes, Error>(original))),
            result,
        ),
    ensures
        final(serial).step is Apply,
        ({
            let Flags {
                ixon,
                ixoff,
                ixany,
                csize,
                cstopb,
                parenb,
                cmspar,
                crtscts,
                cs8,
                cread,
                clocal,
            } = old(serial).flags;
            let settings = final(serial).step->Apply_0;
            &&& settings.c_iflag & ixon == 0 && settings.c_iflag & ixoff == 0 && settings.c_iflag
                & ixany == 0
            &&& other & (ixon | ixoff | ixany) == 0 ==> settings.c_iflag & other
                == original.c_iflag & other
            &&& settings.c_cflag & cs8 == cs8 && settings.c_cflag & cread == cread
                && settings.c_cflag & clocal == clocal
            &&& other & (csize | cstopb | parenb | cmspar | crtscts | cs8 | cread | clocal) == 0
                ==> settings.c_cflag & other == original.c_cflag & other
            &&& other & (cs8 | cread | clocal) == 0 && other & (csize | cstopb | parenb | cmspar
                | crtscts) == other ==> settings.c_cflag & other == 0
            &&& settings.vmin == 1 && settings.vtime == 0
            &&& settings.speed == old(serial).speed
        }),
{
    let Flags { ixon, ixoff, ixany, csize, cstopb, parenb, cmspar, crtscts, cs8, cread, clocal } =
        old(serial).flags;
    let before = original.c_iflag;
    let control = original.c_cflag;
    assert({
        let input = before & !(ixon | ixoff | ixany);
        let set = (control & !(csize | cstopb | parenb | cmspar | crtscts)) | (cs8 | cread
            | clocal);
        &&& input & ixon == 0 && input & ixoff == 0 && input & ixany == 0
        &&& other & (ixon | ixoff | ixany) == 0 ==> input & other == before & other
        &&& set & cs8 == cs8 && set & cread == cread && set & clocal == clocal
        &&& other & (csize | cstopb | parenb | cmspar | crtscts | cs8 | cread | clocal) == 0
            ==> set & other == control & other
        &&& other & (cs8 | cread | clocal) == 0 && other & (csize | cstopb | parenb | cmspar
            | crtscts) == other ==> set & other == 0
    }) by (bit_vector);
}

/// Loopback is switched off after the test exactly if bit 15 of the modem
/// control lines was clear before it.
pub proof fn law_loopback_is_put_back(previous: i32, loopback: Loopback, disables: bool)
    requires
        call_ensures(Loopback::enable, (previous,), loopback),
        call_ensures(Loopback::disables, (&loopback,), disables),
    ensures
        disables <==> previous & 0x8000 == 0,
{
}

} // verus!
