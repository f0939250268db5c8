//! The command line.

use vstd::prelude::*;
use vstd::string::*;
use crate::error::{invalid, same_text, Error, ErrorKind};
use crate::frame::MAX_PAYLOAD;
use crate::text::{decimal_of, push_decimal};

verus! {

/// Most frames of one test.
pub const MAX_COUNT: u32 = 1_000_000;

/// Longest timeout in milliseconds.
pub const MAX_TIMEOUT: u64 = 600_000;

/// What to test.
#[derive(Clone, Copy, Debug, PartialEq, Eq, Structural)]
pub enum Command {
    /// Send numbered frames and require exact echoes.
    Uart,
    /// The same, through the controller's internal loopback.
    Loopback,
    /// Validate frames and echo them.
    Peer,
    /// Validate the character device.
    Chardev,
}

/// How to test.
#[derive(Debug)]
pub struct Options {
    pub command: Command,
    pub device: String,
    pub baud: u32,
    /// Number of frames.
    pub count: u32,
    /// Payload bytes of each frame.
    pub size: usize,
    /// Time for one exchange, in milliseconds.
    pub timeout: u64,
}

/// The options as values.
pub ghost struct OptionsView {
    pub command: Command,
    pub device: Seq<char>,
    pub baud: u32,
    pub count: u32,
    pub size: usize,
    pub timeout: u64,
}

impl View for Options {
    type V = OptionsView;

    open spec fn view(&self) -> OptionsView {
        OptionsView {
            command: self.command,
            device: self.device@,
            baud: self.baud,
            count: self.count,
            size: self.size,
            timeout: self.timeout,
        }
    }
}

/// What a command line asks for.
pub ghost enum Parsed {
    /// To show how the program is used.
    Usage,
    Run(OptionsView),
    /// Nothing that makes sense, for this reason.
    Refused(Seq<char>),
}

// ---------------------------------------------------------------------------
// Numbers
// ---------------------------------------------------------------------------

/// The character is a decimal digit.
pub open spec fn is_digit(c: char) -> bool {
    '0' <= c <= '9'
}

/// Every character is a decimal digit.
pub open spec fn all_digits(text: Seq<char>) -> bool {
    forall|i: int| 0 <= i < text.len() ==> is_digit(#[trigger] text[i])
}

/// The number that a row of digits stands for.
pub open spec fn digits_value(text: Seq<char>) -> int
    decreases text.len(),
{
    if text.len() == 0 {
        0
    } else {
        10 * digits_value(text.drop_last()) + (text.last() as int - '0' as int)
    }
}

/// The digits of a number, which a plus sign may precede.
pub open spec fn digits_of(text: Seq<char>) -> Seq<char> {
    if text.len() > 0 && text[0] == '+' {
        text.skip(1)
    } else {
        text
    }
}

/// `text` is a number, and no greater than `max`.
pub open spec fn is_number(text: Seq<char>, max: int) -> bool {
    let digits = digits_of(text);
    digits.len() > 0 && all_digits(digits) && digits_value(digits) <= max
}

/// The number that `text` stands for.
pub open spec fn number_of(text: Seq<char>) -> int {
    digits_value(digits_of(text))
}

/// More digits never make a smaller number.
proof fn lemma_prefix_is_smaller(text: Seq<char>, len: int)
    requires
        all_digits(text),
        0 <= len <= text.len(),
    ensures
        0 <= digits_value(text.take(len)) <= digits_value(text),
    decreases text.len(),
{
    if len == text.len() {
        assert(text.take(len) =~= text);
        if len > 0 {
            lemma_prefix_is_smaller(text.drop_last(), len - 1);
        }
    } else {
        lemma_prefix_is_smaller(text.drop_last(), len);
        assert(text.drop_last().take(len) =~= text.take(len));
    }
}

/// Reads a decimal number of at most `max`.
pub fn parse_number(text: &str, max: u64) -> (number: Option<u64>)
    ensures
        match number {
            Some(value) => is_number(text@, max as int) && value == number_of(text@),
            None => !is_number(text@, max as int),
        },
{
    let len: usize = text.unicode_len();
    let start: usize = if len > 0 && text.get_char(0) == '+' {
        1
    } else {
        0
    };
    let ghost digits = digits_of(text@);
    assert(digits =~= text@.skip(start as int));
    if start == len {
        return None;
    }
    let mut value: u64 = 0;
    let mut i: usize = start;
    assert(digits.take(0) =~= Seq::<char>::empty());
    while i < len
        invariant
            start <= i <= len,
            len == text@.len(),
            digits == text@.skip(start as int),
            digits == digits_of(text@),
            digits.len() > 0,
            all_digits(digits.take(i - start)),
            value == digits_value(digits.take(i - start)),
            value <= max,
        decreases len - i,
    {
        let c = text.get_char(i);
        let ghost next = digits.take(i + 1 - start);
        assert(next.drop_last() =~= digits.take(i - start));
        assert(next.last() == c);
        if c < '0' || c > '9' {
            assert(!is_digit(digits[i - start]));
            return None;
        }
        let digit: u64 = c as u64 - 48;
        if digit > max || value > (max - digit) / 10 {
            proof {
                assert(digits_value(next) > max);
                if all_digits(digits) {
                    lemma_prefix_is_smaller(digits, i + 1 - start);
                }
            }
            return None;
        }
        value = 10 * value + digit;
        i = i + 1;
        assert forall|j: int| 0 <= j < next.len() implies is_digit(#[trigger] next[j]) by {
            if j < next.len() - 1 {
                assert(next[j] == digits.take(i - 1 - start)[j]);
            }
        }
    }
    assert(digits.take(len - start) =~= digits);
    Some(value)
}

// ---------------------------------------------------------------------------
// Options
// ---------------------------------------------------------------------------

/// The command of this name.
pub open spec fn command_of(name: Seq<char>) -> Option<Command> {
    if name == "uart"@ {
        Some(Command::Uart)
    } else if name == "loopback"@ {
        Some(Command::Loopback)
    } else if name == "peer"@ {
        Some(Command::Peer)
    } else if name == "chardev"@ {
        Some(Command::Chardev)
    } else {
        None
    }
}

/// The options where none are given.
pub open spec fn defaults(command: Command) -> OptionsView {
    OptionsView {
        command,
        device: if command == Command::Chardev {
            "/dev/rust-chardev"@
        } else {
            Seq::empty()
        },
        baud: 115200,
        count: 100,
        size: 256,
        timeout: if command == Command::Peer {
            30000
        } else {
            3000
        },
    }
}

/// The options after one of them is given, or why it is refused.
pub open spec fn option_given(options: OptionsView, flag: Seq<char>, value: Seq<char>) -> Result<
    OptionsView,
    Seq<char>,
> {
    if flag == "--device"@ {
        Ok(OptionsView { device: value, ..options })
    } else if flag == "--baud"@ {
        if is_number(value, u32::MAX as int) {
            Ok(OptionsView { baud: number_of(value) as u32, ..options })
        } else {
            Err("invalid baud"@)
        }
    } else if flag == "--count"@ {
        if is_number(value, u32::MAX as int) {
            Ok(OptionsView { count: number_of(value) as u32, ..options })
        } else {
            Err("invalid count"@)
        }
    } else if flag == "--size"@ {
        if is_number(value, usize::MAX as int) {
            Ok(OptionsView { size: number_of(value) as usize, ..options })
        } else {
            Err("invalid size"@)
        }
    } else if flag == "--timeout-ms"@ {
        if !is_number(value, u64::MAX as int) {
            Err("invalid timeout"@)
        } else if 1 <= number_of(value) <= MAX_TIMEOUT {
            Ok(OptionsView { timeout: number_of(value) as u64, ..options })
        } else {
            Err("timeout must be 1..600000 ms"@)
        }
    } else {
        Err("unknown option; use --help"@)
    }
}

/// What complete options ask for.
pub open spec fn complete(options: OptionsView) -> Parsed {
    if options.device.len() == 0 {
        Parsed::Refused("--device is required"@)
    } else if !(1 <= options.count <= MAX_COUNT) {
        Parsed::Refused("count must be 1..1000000"@)
    } else if options.size > MAX_PAYLOAD {
        Parsed::Refused("size must be 0..1024"@)
    } else {
        Parsed::Run(options)
    }
}

/// What a row of options and values asks for, once others were given.
pub open spec fn options_given(
    args: Seq<Seq<char>>,
    options: OptionsView,
    given: Seq<Seq<char>>,
) -> Parsed
    decreases args.len(),
{
    if args.len() == 0 {
        complete(options)
    } else if given.contains(args[0]) {
        Parsed::Refused("duplicate option"@)
    } else if args.len() == 1 {
        Parsed::Refused("option requires a value"@)
    } else {
        match option_given(options, args[0], args[1]) {
            Ok(next) => options_given(args.skip(2), next, given.push(args[0])),
            Err(reason) => Parsed::Refused(reason),
        }
    }
}

/// What the arguments after the program's name ask for.
pub open spec fn parsed(args: Seq<Seq<char>>) -> Parsed {
    if args.len() == 0 || args[0] == "--help"@ || args[0] == "-h"@ {
        Parsed::Usage
    } else {
        match command_of(args[0]) {
            Some(command) => options_given(args.skip(1), defaults(command), Seq::empty()),
            None => Parsed::Refused("unknown command; use --help"@),
        }
    }
}

/// The texts of a row of strings.
pub open spec fn texts(strings: Seq<String>) -> Seq<Seq<char>> {
    Seq::new(strings.len(), |i: int| strings[i]@)
}

/// The command of this name.
fn parse_command(name: &str) -> (command: Option<Command>)
    ensures
        command == command_of(name@),
{
    if same_text(name, "uart") {
        Some(Command::Uart)
    } else if same_text(name, "loopback") {
        Some(Command::Loopback)
    } else if same_text(name, "peer") {
        Some(Command::Peer)
    } else if same_text(name, "chardev") {
        Some(Command::Chardev)
    } else {
        None
    }
}

/// Whether one of the strings is `text`.
fn contains_text(strings: &Vec<String>, text: &str) -> (found: bool)
    ensures
        found == texts(strings@).contains(text@),
{
    let mut i: usize = 0;
    while i < strings.len()
        invariant
            i <= strings@.len(),
            forall|j: int| 0 <= j < i ==> texts(strings@)[j] != text@,
        decreases strings@.len() - i,
    {
        if same_text(strings[i].as_str(), text) {
            assert(texts(strings@)[i as int] == text@);
            return true;
        }
        i = i + 1;
    }
    false
}

impl Options {
    /// The options where none are given.
    pub fn new(command: Command) -> (options: Options)
        ensures
            options@ == defaults(command),
    {
        proof {
            reveal_strlit("");
        }
        let device = match command {
            Command::Chardev => "/dev/rust-chardev",
            _ => "",
        };
        assert(device@ =~= defaults(command).device);
        Options {
            command,
            device: device.to_owned(),
            baud: 115200,
            count: 100,
            size: 256,
            timeout: match command {
                Command::Peer => 30000,
                _ => 3000,
            },
        }
    }

    /// Takes one option.
    fn give(&mut self, flag: &str, value: &str) -> (result: Result<(), Error>)
        ensures
            match option_given(old(self)@, flag@, value@) {
                Ok(next) => result is Ok && final(self)@ == next,
                Err(reason) => result is Err && result->Err_0.is(ErrorKind::InvalidInput, reason),
            },
    {
        if same_text(flag, "--device") {
            self.device = value.to_owned();
        } else if same_text(flag, "--baud") {
            match parse_number(value, u32::MAX as u64) {
                Some(baud) => {
                    self.baud = baud as u32;
                },
                None => {
                    return Err(invalid("invalid baud"));
                },
            }
        } else if same_text(flag, "--count") {
            match parse_number(value, u32::MAX as u64) {
                Some(count) => {
                    self.count = count as u32;
                },
                None => {
                    return Err(invalid("invalid count"));
                },
            }
        } else if same_text(flag, "--size") {
            match parse_number(value, usize::MAX as u64) {
                Some(size) => {
                    self.size = size as usize;
                },
                None => {
                    return Err(invalid("invalid size"));
                },
            }
        } else if same_text(flag, "--timeout-ms") {
            match parse_number(value, u64::MAX) {
                Some(timeout) => {
                    if timeout < 1 || timeout > MAX_TIMEOUT {
                        return Err(invalid("timeout must be 1..600000 ms"));
                    }
                    self.timeout = timeout;
                },
                None => {
                    return Err(invalid("invalid timeout"));
                },
            }
        } else {
            return Err(invalid("unknown option; use --help"));
        }
        Ok(())
    }

    /// Checks complete options.
    fn check(self) -> (result: Result<Options, Error>)
        ensures
            match complete(self@) {
                Parsed::Run(view) => result is Ok && result->Ok_0@ == view,
                Parsed::Refused(reason) => result is Err && result->Err_0.is(
                    ErrorKind::InvalidInput,
                    reason,
                ),
                Parsed::Usage => false,
            },
    {
        if self.device.as_str().unicode_len() == 0 {
            return Err(invalid("--device is required"));
        }
        if self.count < 1 || self.count > MAX_COUNT {
            return Err(invalid("count must be 1..1000000"));
        }
        if self.size > MAX_PAYLOAD {
            return Err(invalid("size must be 0..1024"));
        }
        Ok(self)
    }
}

/// Reads the arguments after the program's name. `None` asks to show how the
/// program is used.
pub fn options(args: &Vec<String>) -> (result: Result<Option<Options>, Error>)
    ensures
        match parsed(texts(args@)) {
            Parsed::Usage => result is Ok && result->Ok_0 is None,
            Parsed::Run(view) => result is Ok && result->Ok_0 is Some && result->Ok_0->0@ == view,
            Parsed::Refused(reason) => result is Err && result->Err_0.is(
                ErrorKind::InvalidInput,
                reason,
            ),
        },
{
    let ghost all = texts(args@);
    if args.len() == 0 {
        return Ok(None);
    }
    if same_text(args[0].as_str(), "--help") || same_text(args[0].as_str(), "-h") {
        return Ok(None);
    }
    let command = match parse_command(args[0].as_str()) {
        Some(command) => command,
        None => {
            return Err(invalid("unknown command; use --help"));
        },
    };
    let mut options = Options::new(command);
    let mut given: Vec<String> = Vec::new();
    let mut i: usize = 1;
    assert(texts(given@) =~= Seq::<Seq<char>>::empty());
    while i < args.len()
        invariant
            i <= args@.len(),
            all == texts(args@),
            parsed(all) == options_given(all.skip(i as int), options@, texts(given@)),
        decreases args@.len() - i,
    {
        let ghost rest = all.skip(i as int);
        assert(rest[0] == args@[i as int]@);
        let flag = &args[i];
        if contains_text(&given, flag.as_str()) {
            return Err(invalid("duplicate option"));
        }
        if i + 1 == args.len() {
            return Err(invalid("option requires a value"));
        }
        let value = &args[i + 1];
        assert(rest[1] == value@);
        let ghost before = texts(given@);
        match options.give(flag.as_str(), value.as_str()) {
            Ok(()) => {},
            Err(error) => {
                return Err(error);
            },
        }
        given.push(flag.as_str().to_owned());
        assert(texts(given@) =~= before.push(flag@));
        i = i + 2;
        assert(all.skip(i as int) =~= rest.skip(2));
    }
    assert(all.skip(i as int).len() == 0);
    match options.check() {
        Ok(checked) => Ok(Some(checked)),
        Err(error) => Err(error),
    }
}

// ---------------------------------------------------------------------------
// Laws
// ---------------------------------------------------------------------------

/// The options are within their limits.
pub open spec fn in_range(options: OptionsView) -> bool {
    &&& options.device.len() > 0
    &&& 1 <= options.count <= MAX_COUNT
    &&& options.size <= MAX_PAYLOAD
    &&& 1 <= options.timeout <= MAX_TIMEOUT
}

/// Options that are accepted are within their limits, whatever was given.
pub proof fn law_accepted_options_are_in_range(args: Seq<Seq<char>>)
    ensures
        parsed(args) is Run ==> in_range(parsed(args)->Run_0),
{
    if parsed(args) is Run {
        lemma_given_options_are_in_range(
            args.skip(1),
            defaults(command_of(args[0])->0),
            Seq::empty(),
        );
    }
}

/// A timeout within its limits stays there.
proof fn lemma_given_options_are_in_range(
    args: Seq<Seq<char>>,
    options: OptionsView,
    given: Seq<Seq<char>>,
)
    requires
        1 <= options.timeout <= MAX_TIMEOUT,
    ensures
        options_given(args, options, given) is Run ==> in_range(
            options_given(args, options, given)->Run_0,
        ),
    decreases args.len(),
{
    if args.len() > 1 {
        match option_given(options, args[0], args[1]) {
            Ok(next) => lemma_given_options_are_in_range(args.skip(2), next, given.push(args[0])),
            Err(_) => {},
        }
    }
}

/// No option is accepted twice, and every one comes with a value.
pub proof fn law_no_option_is_accepted_twice(
    args: Seq<Seq<char>>,
    options: OptionsView,
    given: Seq<Seq<char>>,
)
    requires
        options_given(args, options, given) is Run,
    ensures
        args.len() % 2 == 0,
        forall|i: int| 0 <= 2 * i < args.len() ==> !given.contains(#[trigger] args[2 * i]),
        forall|i: int, j: int|
            0 <= 2 * i < 2 * j < args.len() ==> #[trigger] args[2 * i] != #[trigger] args[2 * j],
    decreases args.len(),
{
    if args.len() > 0 {
        let rest = args.skip(2);
        let next = option_given(options, args[0], args[1])->Ok_0;
        let now = given.push(args[0]);
        law_no_option_is_accepted_twice(rest, next, now);
        assert(now.last() == args[0]);
        assert(now.contains(args[0]));
        assert forall|i: int| 0 <= 2 * i < args.len() implies !given.contains(
            #[trigger] args[2 * i],
        ) by {
            if i > 0 {
                assert(rest[2 * (i - 1)] == args[2 * i]);
                if given.contains(args[2 * i]) {
                    let at = choose|at: int| 0 <= at < given.len() && given[at] == args[2 * i];
                    assert(now[at] == args[2 * i]);
                }
            }
        }
        assert forall|i: int, j: int| 0 <= 2 * i < 2 * j < args.len() implies #[trigger] args[2
            * i] != #[trigger] args[2 * j] by {
            assert(rest[2 * (j - 1)] == args[2 * j]);
            if i > 0 {
                assert(rest[2 * (i - 1)] == args[2 * i]);
            }
        }
    }
}

/// What the decimal notation of a number reads as.
proof fn lemma_notation_is_read(n: int)
    requires
        0 <= n,
    ensures
        decimal_of(n).len() > 0,
        all_digits(decimal_of(n)),
        digits_value(decimal_of(n)) == n,
    decreases n,
{
    reveal_with_fuel(digits_value, 2);
    let text = decimal_of(n);
    if n < 10 {
        assert(text.drop_last() =~= Seq::<char>::empty());
    } else {
        lemma_notation_is_read(n / 10);
        assert(text.drop_last() =~= decimal_of(n / 10));
    }
}

/// Reading undoes writing: the decimal notation of a number is read as that
/// number, with a plus sign before it or without one, and refused exactly where
/// it is too great.
pub proof fn law_written_numbers_are_read(
    out: &mut String,
    n: u64,
    text: &str,
    max: u64,
    number: Option<u64>,
)
    requires
        old(out)@.len() == 0 || old(out)@ == seq!['+'],
        call_ensures(push_decimal, (out, n), ()),
        text@ == final(out)@,
        call_ensures(parse_number, (text, max), number),
    ensures
        number == if n <= max {
            Some(n)
        } else {
            None
        },
{
    lemma_notation_is_read(n as int);
    let notation = decimal_of(n as int);
    assert(is_digit(notation[0]));
    if old(out)@.len() == 0 {
        assert(text@ =~= notation);
    } else {
        assert(text@.skip(1) =~= notation);
    }
}

/// What is read as a number consists of digits, after at most one plus sign,
/// and has at least one of them.
pub proof fn law_numbers_are_digits(text: &str, max: u64, number: Option<u64>, i: int)
    requires
        call_ensures(parse_number, (text, max), number),
    ensures
        number is Some ==> number->0 <= max && text@.len() > 0,
        number is Some && 0 <= i < text@.len() ==> 0x30 <= text@[i] as int <= 0x39 || (i == 0
            && text@[0] as int == 0x2b && text@.len() > 1),
{
    if number is Some && 0 <= i < text@.len() {
        let digits = digits_of(text@);
        if text@[0] == '+' {
            assert(i > 0 ==> digits[i - 1] == text@[i] && is_digit(digits[i - 1]));
        } else {
            assert(is_digit(digits[i]));
        }
    }
}

/// The options where none are given: 115200 baud, 100 frames of 256 bytes, and
/// three seconds, or thirty for a peer; only the character device has a name.
pub proof fn law_default_options(command: Command, options: Options)
    requires
        call_ensures(Options::new, (command,), options),
    ensures
        options.command == command,
        options.baud == 115200,
        options.count == 100,
        options.size == 256,
        options.timeout == if command == Command::Peer {
            30000u64
        } else {
            3000
        },
        command == Command::Chardev ==> options.device@ == "/dev/rust-chardev"@,
        command != Command::Chardev ==> options.device@.len() == 0,
{
}

/// A command line without arguments, or one that starts with a request for help,
/// asks for the usage; one that starts with none of the four commands is
/// refused; and one that is accepted starts with its command.
pub proof fn law_command_is_named(args: &Vec<String>, result: Result<Option<Options>, Error>)
    requires
        call_ensures(self::options, (args,), result),
    ensures
        result is Ok && result->Ok_0 is None <==> args@.len() == 0 || args@[0]@ == "--help"@
            || args@[0]@ == "-h"@,
        result is Ok && result->Ok_0 is Some ==> match result->Ok_0->0.command {
            Command::Uart => args@[0]@ == "uart"@,
            Command::Loopback => args@[0]@ == "loopback"@,
            Command::Peer => args@[0]@ == "peer"@,
            Command::Chardev => args@[0]@ == "chardev"@,
        },
        args@.len() > 0 && args@[0]@ != "--help"@ && args@[0]@ != "-h"@ && args@[0]@ != "uart"@
            && args@[0]@ != "loopback"@ && args@[0]@ != "peer"@ && args@[0]@ != "chardev"@
            ==> result is Err && result->Err_0.message@ == "unknown command; use --help"@,
        result is Err ==> result->Err_0.kind == ErrorKind::InvalidInput,
{
    let all = texts(args@);
    if args@.len() > 0 {
        assert(all[0] == args@[0]@);
        if command_of(all[0]) is Some {
            lemma_command_is_kept(
                all.skip(1),
                defaults(command_of(all[0])->0),
                Seq::<Seq<char>>::empty(),
            );
        }
    }
}

/// Options that are accepted have the command that they began with.
proof fn lemma_command_is_kept(
    args: Seq<Seq<char>>,
    options: OptionsView,
    given: Seq<Seq<char>>,
)
    ensures
        options_given(args, options, given) !is Usage,
        options_given(args, options, given) is Run ==> options_given(
            args,
            options,
            given,
        )->Run_0.command == options.command,
    decreases args.len(),
{
    if args.len() > 1 {
        match option_given(options, args[0], args[1]) {
            Ok(next) => lemma_command_is_kept(args.skip(2), next, given.push(args[0])),
            Err(_) => {},
        }
    }
}

/// What one option more does to options that are accepted.
proof fn lemma_one_option_more(
    args: Seq<Seq<char>>,
    options: OptionsView,
    given: Seq<Seq<char>>,
    flag: Seq<char>,
    value: Seq<char>,
)
    requires
        options_given(args, options, given) is Run,
        !given.contains(flag),
        forall|k: int| 0 <= k < args.len() && k % 2 == 0 ==> #[trigger] args[k] != flag,
    ensures
        options_given(args.push(flag).push(value), options, given) == match option_given(
            options_given(args, options, given)->Run_0,
            flag,
            value,
        ) {
            Ok(next) => complete(next),
            Err(reason) => Parsed::Refused(reason),
        },
    decreases args.len(),
{
    let more = args.push(flag).push(value);
    if args.len() == 0 {
        assert(more.skip(2) =~= Seq::<Seq<char>>::empty());
        reveal_with_fuel(options_given, 2);
    } else {
        let next = option_given(options, args[0], args[1])->Ok_0;
        assert(more.skip(2) =~= args.skip(2).push(flag).push(value));
        assert(args[0] != flag);
        assert forall|k: int| 0 <= k < args.skip(2).len()
            && k % 2 == 0 implies #[trigger] args.skip(
            2,
        )[k] != flag by {
            assert(args[k + 2] != flag);
        }
        lemma_one_option_more(args.skip(2), next, given.push(args[0]), flag, value);
    }
}

/// What one option more does to a command line that is accepted and does not
/// have that option yet. It sets what it names, and nothing else, to its value.
/// A number that is none or does not fit, a timeout that is not from one to
/// 600000, a count that is not from one to a million, a size over 1024, a device
/// without a name and an option of any other name are refused.
pub proof fn law_option_sets_what_it_names(
    args: &Vec<String>,
    accepted: Result<Option<Options>, Error>,
    more: &Vec<String>,
    result: Result<Option<Options>, Error>,
    value: &str,
    small: Option<u64>,
    size: Option<u64>,
    large: Option<u64>,
)
    requires
        call_ensures(self::options, (args,), accepted),
        accepted is Ok && accepted->Ok_0 is Some,
        more@.len() == args@.len() + 2,
        forall|i: int| 0 <= i < args@.len() ==> #[trigger] more@[i] == args@[i],
        forall|i: int|
            0 <= i < args@.len() && i % 2 == 1 ==> (#[trigger] args@[i])@
                != more@[more@.len() - 2]@,
        value@ == more@[more@.len() - 1]@,
        call_ensures(self::options, (more,), result),
        call_ensures(parse_number, (value, u32::MAX as u64), small),
        call_ensures(parse_number, (value, usize::MAX as u64), size),
        call_ensures(parse_number, (value, u64::MAX), large),
    ensures
        ({
            let before = accepted->Ok_0->0;
            let flag = more@[more@.len() - 2]@;
            let after = result->Ok_0->0;
            &&& result is Ok <==> {
                ||| flag == "--device"@ && value@.len() > 0
                ||| flag == "--baud"@ && small is Some
                ||| flag == "--count"@ && small is Some && 1 <= small->0 <= 1_000_000
                ||| flag == "--size"@ && size is Some && size->0 <= 1024
                ||| flag == "--timeout-ms"@ && large is Some && 1 <= large->0 <= 600_000
            }
            &&& result is Ok ==> {
                &&& result->Ok_0 is Some
                &&& after.command == before.command
                &&& flag == "--device"@ ==> after.device@ == value@
                &&& flag != "--device"@ ==> after.device@ == before.device@
                &&& flag == "--baud"@ ==> after.baud == small->0
                &&& flag != "--baud"@ ==> after.baud == before.baud
                &&& flag == "--count"@ ==> after.count == small->0
                &&& flag != "--count"@ ==> after.count == before.count
                &&& flag == "--size"@ ==> after.size == size->0
                &&& flag != "--size"@ ==> after.size == before.size
                &&& flag == "--timeout-ms"@ ==> after.timeout == large->0
                &&& flag != "--timeout-ms"@ ==> after.timeout == before.timeout
            }
            &&& result is Err ==> result->Err_0.message@ == if flag == "--device"@ {
                "--device is required"@
            } else if flag == "--baud"@ {
                "invalid baud"@
            } else if flag == "--count"@ {
                if small is None {
                    "invalid count"@
                } else {
                    "count must be 1..1000000"@
                }
            } else if flag == "--size"@ {
                if size is None {
                    "invalid size"@
                } else {
                    "size must be 0..1024"@
                }
            } else if flag == "--timeout-ms"@ {
                if large is None {
                    "invalid timeout"@
                } else {
                    "timeout must be 1..600000 ms"@
                }
            } else {
                "unknown option; use --help"@
            }
        }),
{
    let all = texts(args@);
    let longer = texts(more@);
    let flag = more@[more@.len() - 2]@;
    assert(longer[0] == all[0]) by {
        assert(more@[0] == args@[0]);
    }
    assert(longer.skip(1) =~= all.skip(1).push(flag).push(value@)) by {
        assert forall|i: int| 0 <= i < longer.len() - 1 implies longer.skip(1)[i] == all.skip(
            1,
        ).push(flag).push(value@)[i] by {
            if i + 1 < args@.len() {
                assert(more@[i + 1] == args@[i + 1]);
            }
        }
    }
    assert forall|k: int| 0 <= k < all.skip(1).len() && k % 2 == 0 implies #[trigger] all.skip(1)[k]
        != flag by {
        assert(args@[k + 1]@ != flag);
    }
    lemma_one_option_more(
        all.skip(1),
        defaults(command_of(all[0])->0),
        Seq::empty(),
        flag,
        value@,
    );
    law_accepted_options_are_in_range(all);
    lemma_flags_differ();
}

/// The names of the options are different.
proof fn lemma_flags_differ()
    ensures
        "--device"@.len() == 8,
        "--baud"@.len() == 6,
        "--count"@.len() == 7,
        "--size"@.len() == 6,
        "--timeout-ms"@.len() == 12,
        "--baud"@ != "--size"@,
{
    reveal_strlit("--device");
    reveal_strlit("--baud");
    reveal_strlit("--count");
    reveal_strlit("--size");
    reveal_strlit("--timeout-ms");
    assert("--baud"@[2] != "--size"@[2]);
}

/// A command alone is accepted with the default options exactly where these
/// name a device; otherwise naming one makes it so.
pub proof fn law_device_is_needed(
    args: &Vec<String>,
    result: Result<Option<Options>, Error>,
    command: Command,
    options: Options,
)
    requires
        call_ensures(self::options, (args,), result),
        call_ensures(Options::new, (command,), options),
        args@.len() == 1 || (args@.len() == 3 && args@[1]@ == "--device"@ && args@[2]@.len() > 0),
        args@[0]@ == match command {
            Command::Uart => "uart"@,
            Command::Loopback => "loopback"@,
            Command::Peer => "peer"@,
            Command::Chardev => "chardev"@,
        },
    ensures
        result is Ok <==> args@.len() == 3 || command == Command::Chardev,
        result is Err ==> result->Err_0.message@ == "--device is required"@,
        result is Ok ==> {
            let after = result->Ok_0->0;
            &&& result->Ok_0 is Some
            &&& after.command == command
            &&& after.device@ == if args@.len() == 3 {
                args@[2]@
            } else {
                options.device@
            }
            &&& after.baud == options.baud && after.count == options.count
            &&& after.size == options.size && after.timeout == options.timeout
        },
{
    reveal_strlit("uart");
    reveal_strlit("loopback");
    reveal_strlit("peer");
    reveal_strlit("chardev");
    reveal_strlit("--help");
    reveal_strlit("-h");
    reveal_strlit("/dev/rust-chardev");
    assert("uart"@[0] != "peer"@[0]);
    let all = texts(args@);
    assert(all[0] == args@[0]@);
    reveal_with_fuel(options_given, 3);
    if args@.len() == 3 {
        assert(all.skip(1)[0] == args@[1]@ && all.skip(1)[1] == args@[2]@);
        assert(all.skip(1).skip(2).len() == 0);
    } else {
        assert(all.skip(1).len() == 0);
    }
}

/// An option that was given before is refused, and so is one without a value.
pub proof fn law_repeated_and_bare_options_are_refused(
    args: &Vec<String>,
    accepted: Result<Option<Options>, Error>,
    more: &Vec<String>,
    result: Result<Option<Options>, Error>,
)
    requires
        call_ensures(self::options, (args,), accepted),
        accepted is Ok && accepted->Ok_0 is Some,
        more@.len() > args@.len(),
        forall|i: int| 0 <= i < args@.len() ==> #[trigger] more@[i] == args@[i],
        call_ensures(self::options, (more,), result),
        more@.len() == args@.len() + 1 || exists|i: int|
            0 <= i < args@.len() && i % 2 == 1 && (#[trigger] args@[i])@
                == more@[args@.len() as int]@,
    ensures
        result is Err,
        result->Err_0.message@ == "duplicate option"@ || result->Err_0.message@
            == "option requires a value"@,
{
    let all = texts(args@);
    let longer = texts(more@);
    assert(longer[0] == all[0]) by {
        assert(more@[0] == args@[0]);
    }
    let flag = more@[args@.len() as int]@;
    let rest = longer.skip(1);
    assert forall|k: int| 0 <= k < all.len() - 1 implies rest[k] == #[trigger] all.skip(1)[k] by {
        assert(more@[k + 1] == args@[k + 1]);
    }
    if more@.len() > args@.len() + 1 {
        let i = choose|i: int|
            0 <= i < args@.len() && i % 2 == 1 && (#[trigger] args@[i])@ == flag;
        assert(all.skip(1)[i - 1] == flag);
    }
    lemma_refused_after(
        all.skip(1),
        rest,
        defaults(command_of(all[0])->0),
        Seq::<Seq<char>>::empty(),
    );
}

/// A row of options that goes on behind an accepted one with a repeated option,
/// or with one alone, is refused.
proof fn lemma_refused_after(
    args: Seq<Seq<char>>,
    more: Seq<Seq<char>>,
    options: OptionsView,
    given: Seq<Seq<char>>,
)
    requires
        options_given(args, options, given) is Run,
        more.len() > args.len(),
        forall|k: int| 0 <= k < args.len() ==> more[k] == #[trigger] args[k],
        more.len() == args.len() + 1 || given.contains(more[args.len() as int]) || exists|k: int|
            0 <= k < args.len() && k % 2 == 0 && #[trigger] args[k] == more[args.len() as int],
    ensures
        ({
            let end = options_given(more, options, given);
            end is Refused && (end->Refused_0 == "duplicate option"@ || end->Refused_0
                == "option requires a value"@)
        }),
    decreases args.len(),
{
    if args.len() > 0 {
        let flag = more[args.len() as int];
        let next = option_given(options, args[0], args[1])->Ok_0;
        let (rest, longer) = (args.skip(2), more.skip(2));
        let now = given.push(args[0]);
        assert(more[0] == args[0] && more[1] == args[1]);
        assert(longer[rest.len() as int] == flag);
        assert forall|k: int| 0 <= k < rest.len() implies longer[k] == #[trigger] rest[k] by {
            assert(more[k + 2] == args[k + 2]);
        }
        if more.len() > args.len() + 1 {
            if given.contains(flag) {
                let at = choose|at: int| 0 <= at < given.len() && given[at] == flag;
                assert(now[at] == flag);
            } else {
                let k = choose|k: int|
                    0 <= k < args.len() && k % 2 == 0 && #[trigger] args[k] == flag;
                if k == 0 {
                    assert(now.last() == flag);
                } else {
                    assert(rest[k - 2] == flag);
                }
            }
        }
        lemma_refused_after(rest, longer, next, now);
    }
}

/// What accepted options owe to one that was given, wherever it stands.
proof fn lemma_option_is_heeded(
    args: Seq<Seq<char>>,
    options: OptionsView,
    given: Seq<Seq<char>>,
    k: int,
)
    requires
        options_given(args, options, given) is Run,
        0 <= k < args.len(),
        k % 2 == 0,
    ensures
        ({
            let view = options_given(args, options, given)->Run_0;
            let value = args[k + 1];
            &&& k + 1 < args.len()
            &&& args[k] == "--device"@ ==> view.device == value
            &&& args[k] == "--baud"@ ==> view.baud == number_of(value)
            &&& args[k] == "--count"@ ==> view.count == number_of(value)
            &&& args[k] == "--size"@ ==> view.size == number_of(value)
            &&& args[k] == "--timeout-ms"@ ==> view.timeout == number_of(value)
            &&& args[k] == "--device"@ || args[k] == "--baud"@ || args[k] == "--count"@ || args[k]
                == "--size"@ || args[k] == "--timeout-ms"@
        }),
    decreases args.len(),
{
    lemma_flags_differ();
    law_no_option_is_accepted_twice(args, options, given);
    let next = option_given(options, args[0], args[1])->Ok_0;
    let now = given.push(args[0]);
    let rest = args.skip(2);
    if k == 0 {
        assert forall|j: int| 0 <= j < rest.len() && j % 2 == 0 implies #[trigger] rest[j]
            != args[0] by {
            let (first, later) = (0int, j / 2 + 1);
            assert(args[2 * first] != args[2 * later]);
        }
        lemma_option_stays(rest, next, now, args[0]);
        if all_digits(digits_of(args[1])) {
            lemma_prefix_is_smaller(digits_of(args[1]), 0);
        }
    } else {
        assert(rest[k - 2] == args[k] && rest[k - 1] == args[k + 1]);
        lemma_option_is_heeded(rest, next, now, k - 2);
    }
}

/// Options leave alone what none of them names.
proof fn lemma_option_stays(
    args: Seq<Seq<char>>,
    options: OptionsView,
    given: Seq<Seq<char>>,
    flag: Seq<char>,
)
    requires
        options_given(args, options, given) is Run,
        forall|j: int| 0 <= j < args.len() && j % 2 == 0 ==> #[trigger] args[j] != flag,
    ensures
        ({
            let view = options_given(args, options, given)->Run_0;
            &&& flag == "--device"@ ==> view.device == options.device
            &&& flag == "--baud"@ ==> view.baud == options.baud
            &&& flag == "--count"@ ==> view.count == options.count
            &&& flag == "--size"@ ==> view.size == options.size
            &&& flag == "--timeout-ms"@ ==> view.timeout == options.timeout
        }),
    decreases args.len(),
{
    lemma_flags_differ();
    if args.len() > 0 {
        let next = option_given(options, args[0], args[1])->Ok_0;
        let rest = args.skip(2);
        assert(args[0] != flag);
        assert forall|j: int| 0 <= j < rest.len()
            && j % 2 == 0 implies #[trigger] rest[j] != flag by {
            assert(args[j + 2] != flag);
        }
        lemma_option_stays(rest, next, given.push(args[0]), flag);
    }
}

/// Every option of an accepted command line is heeded, wherever it stands: it is
/// one of the five, it comes with a value, and what it names has that value.
/// What no option names has its default value.
pub proof fn law_every_option_is_heeded(
    args: &Vec<String>,
    result: Result<Option<Options>, Error>,
    fresh: Options,
    i: int,
    value: &str,
    number: Option<u64>,
    absent: &str,
)
    requires
        call_ensures(self::options, (args,), result),
        result is Ok && result->Ok_0 is Some,
        call_ensures(Options::new, (result->Ok_0->0.command,), fresh),
        0 < i < args@.len(),
        i % 2 == 1,
        i + 1 < args@.len() ==> value@ == args@[i + 1]@,
        call_ensures(parse_number, (value, u64::MAX), number),
        forall|j: int| 0 < j < args@.len() && j % 2 == 1 ==> (#[trigger] args@[j])@ != absent@,
    ensures
        i + 1 < args@.len(),
        ({
            let options = result->Ok_0->0;
            let flag = args@[i]@;
            &&& flag == "--device"@ || flag == "--baud"@ || flag == "--count"@ || flag
                == "--size"@ || flag == "--timeout-ms"@
            &&& flag == "--device"@ ==> options.device@ == value@
            &&& flag == "--baud"@ ==> number is Some && options.baud == number->0
            &&& flag == "--count"@ ==> number is Some && options.count == number->0
            &&& flag == "--size"@ ==> number is Some && options.size == number->0
            &&& flag == "--timeout-ms"@ ==> number is Some && options.timeout == number->0
            &&& options.device@.len() > 0
            &&& 1 <= options.count <= 1_000_000
            &&& options.size <= 1024
            &&& 1 <= options.timeout <= 600_000
            &&& absent@ == "--device"@ ==> options.device@ == fresh.device@
            &&& absent@ == "--baud"@ ==> options.baud == fresh.baud
            &&& absent@ == "--count"@ ==> options.count == fresh.count
            &&& absent@ == "--size"@ ==> options.size == fresh.size
            &&& absent@ == "--timeout-ms"@ ==> options.timeout == fresh.timeout
        }),
{
    let all = texts(args@);
    let rest = all.skip(1);
    let start = defaults(command_of(all[0])->0);
    assert(rest[i - 1] == args@[i]@);
    lemma_option_is_heeded(rest, start, Seq::empty(), i - 1);
    assert(rest[i] == args@[i + 1]@);
    lemma_given_numbers(rest, start, Seq::empty(), i - 1);
    assert forall|j: int| 0 <= j < rest.len()
        && j % 2 == 0 implies #[trigger] rest[j] != absent@ by {
        assert(args@[j + 1]@ != absent@);
    }
    lemma_option_stays(rest, start, Seq::empty(), absent@);
    lemma_command_is_kept(rest, start, Seq::empty());
    law_accepted_options_are_in_range(all);
}

/// The values of accepted options that name numbers are numbers.
proof fn lemma_given_numbers(
    args: Seq<Seq<char>>,
    options: OptionsView,
    given: Seq<Seq<char>>,
    k: int,
)
    requires
        options_given(args, options, given) is Run,
        0 <= k < args.len(),
        k % 2 == 0,
    ensures
        args[k] == "--baud"@ || args[k] == "--count"@ || args[k] == "--size"@ || args[k]
            == "--timeout-ms"@ ==> is_number(args[k + 1], u64::MAX as int),
    decreases args.len(),
{
    lemma_flags_differ();
    law_no_option_is_accepted_twice(args, options, given);
    if k > 0 {
        let next = option_given(options, args[0], args[1])->Ok_0;
        let rest = args.skip(2);
        assert(rest[k - 2] == args[k] && rest[k - 1] == args[k + 1]);
        lemma_given_numbers(rest, next, given.push(args[0]), k - 2);
    }
}

/// How a number is read, digit by digit: nothing and a plus sign alone are no
/// numbers; one digit is its value; and one digit more makes ten times what was
/// read before, and the digit. Zeros may come first. What is greater than the
/// limit is refused, and so is anything with another character in it.
pub proof fn law_numbers_are_read_digit_by_digit(
    text: &str,
    number: Option<u64>,
    longer: &str,
    max: u64,
    next: Option<u64>,
    c: char,
)
    requires
        call_ensures(parse_number, (text, u64::MAX), number),
        longer@ == text@.push(c),
        call_ensures(parse_number, (longer, max), next),
    ensures
        text@.len() == 0 || text@ == seq!['+'] ==> number is None,
        ({
            let digit = 0x30 <= c as int <= 0x39;
            let value = c as int - 0x30;
            if text@.len() == 0 || text@ == seq!['+'] {
                &&& next is Some <==> digit && value <= max
                &&& next is Some ==> next->0 == value
            } else {
                &&& next is Some <==> number is Some && digit && 10 * number->0 + value <= max
                &&& next is Some ==> next->0 == 10 * number->0 + value
            }
        }),
{
    reveal_with_fuel(digits_value, 2);
    let (digits, more) = (digits_of(text@), digits_of(longer@));
    if text@.len() > 0 {
        assert(longer@[0] == text@[0]);
        assert(more =~= digits.push(c));
        if text@[0] == '+' && text@.len() == 1 {
            assert(text@ =~= seq!['+']);
        }
        if text@ == seq!['+'] {
            assert(digits.len() == 0);
        }
    } else {
        assert(digits =~= Seq::<char>::empty());
        if c == '+' {
            assert(more.len() == 0);
        } else {
            assert(more =~= digits.push(c));
        }
    }
    if !(text@.len() == 0 && c == '+') {
        assert(more.drop_last() =~= digits && more.last() == c);
        if all_digits(digits) {
            lemma_prefix_is_smaller(digits, 0);
            if is_digit(c) {
                assert(all_digits(more));
            }
        } else {
            let i = choose|i: int| 0 <= i < digits.len() && !is_digit(#[trigger] digits[i]);
            assert(more[i] == digits[i]);
        }
        if !is_digit(c) {
            assert(!is_digit(more[more.len() - 1]));
        }
    }
}

/// Which options were given matters, and not in which order.
proof fn lemma_given_is_a_set(
    args: Seq<Seq<char>>,
    options: OptionsView,
    given: Seq<Seq<char>>,
    other: Seq<Seq<char>>,
)
    requires
        forall|flag: Seq<char>| #[trigger] given.contains(flag) <==> other.contains(flag),
    ensures
        options_given(args, options, given) == options_given(args, options, other),
    decreases args.len(),
{
    if args.len() > 1 && !given.contains(args[0]) {
        match option_given(options, args[0], args[1]) {
            Ok(next) => {
                let (a, b) = (given.push(args[0]), other.push(args[0]));
                assert forall|flag: Seq<char>| #[trigger] a.contains(flag) <==> b.contains(
                    flag,
                ) by {
                    lemma_pushed(given, args[0], flag);
                    lemma_pushed(other, args[0], flag);
                }
                lemma_given_is_a_set(args.skip(2), next, a, b);
            },
            Err(_) => {},
        }
    }
}

/// What a longer row contains.
proof fn lemma_pushed(row: Seq<Seq<char>>, one: Seq<char>, flag: Seq<char>)
    ensures
        row.push(one).contains(flag) <==> row.contains(flag) || flag == one,
{
    if row.contains(flag) {
        let at = choose|at: int| 0 <= at < row.len() && row[at] == flag;
        assert(row.push(one)[at] == flag);
    }
    assert(row.push(one)[row.len() as int] == one);
}

/// Two options that follow one another can change places.
proof fn lemma_options_change_places(
    args: Seq<Seq<char>>,
    swapped: Seq<Seq<char>>,
    options: OptionsView,
    given: Seq<Seq<char>>,
    k: int,
)
    requires
        options_given(args, options, given) is Run,
        0 <= k,
        k % 2 == 0,
        k + 3 < args.len(),
        swapped == args.update(k, args[k + 2]).update(k + 1, args[k + 3]).update(
            k + 2,
            args[k],
        ).update(k + 3, args[k + 1]),
    ensures
        options_given(swapped, options, given) == options_given(args, options, given),
    decreases k,
{
    law_no_option_is_accepted_twice(args, options, given);
    lemma_flags_differ();
    let next = option_given(options, args[0], args[1])->Ok_0;
    if k == 0 {
        let (zero, one) = (0int, 1int);
        assert(args[2 * zero] != args[2 * one]);
        let rest = args.skip(2);
        assert(rest[0] == args[2] && rest[1] == args[3]);
        let both = option_given(next, args[2], args[3])->Ok_0;
        let early = option_given(options, args[2], args[3])->Ok_0;
        assert(both == option_given(early, args[0], args[1])->Ok_0);
        let a = given.push(args[0]).push(args[2]);
        let b = given.push(args[2]).push(args[0]);
        assert forall|flag: Seq<char>| #[trigger] a.contains(flag) <==> b.contains(flag) by {
            lemma_pushed(given, args[0], flag);
            lemma_pushed(given.push(args[0]), args[2], flag);
            lemma_pushed(given, args[2], flag);
            lemma_pushed(given.push(args[2]), args[0], flag);
        }
        let tail = args.skip(2).skip(2);
        assert(swapped.skip(2).skip(2) =~= tail);
        assert(swapped.skip(2)[0] == args[0] && swapped.skip(2)[1] == args[1]);
        lemma_pushed(given, args[0], args[2]);
        lemma_pushed(given, args[2], args[0]);
        assert(options_given(args, options, given) == options_given(
            rest,
            next,
            given.push(args[0]),
        ));
        assert(options_given(rest, next, given.push(args[0])) == options_given(tail, both, a));
        assert(options_given(swapped, options, given) == options_given(
            swapped.skip(2),
            early,
            given.push(args[2]),
        ));
        assert(options_given(swapped.skip(2), early, given.push(args[2])) == options_given(
            tail,
            both,
            b,
        ));
        lemma_given_is_a_set(tail, both, a, b);
    } else {
        let rest = args.skip(2);
        assert(rest[k - 2] == args[k] && rest[k - 1] == args[k + 1] && rest[k] == args[k + 2]
            && rest[k + 1] == args[k + 3]);
        assert(swapped.skip(2) =~= rest.update(k - 2, rest[k]).update(k - 1, rest[k + 1]).update(
            k,
            rest[k - 2],
        ).update(k + 1, rest[k - 1]));
        assert(swapped[0] == args[0] && swapped[1] == args[1]);
        lemma_options_change_places(rest, swapped.skip(2), next, given.push(args[0]), k - 2);
    }
}

/// The order of the options does not matter: where two of them that follow one
/// another change places in an accepted command line, it is accepted again, and
/// asks for the same.
pub proof fn law_order_of_options_does_not_matter(
    args: &Vec<String>,
    accepted: Result<Option<Options>, Error>,
    swapped: &Vec<String>,
    result: Result<Option<Options>, Error>,
    i: int,
)
    requires
        call_ensures(self::options, (args,), accepted),
        accepted is Ok && accepted->Ok_0 is Some,
        0 < i,
        i % 2 == 1,
        i + 3 < args@.len(),
        swapped@ == args@.update(i, args@[i + 2]).update(i + 1, args@[i + 3]).update(
            i + 2,
            args@[i],
        ).update(i + 3, args@[i + 1]),
        call_ensures(self::options, (swapped,), result),
    ensures
        result is Ok && result->Ok_0 is Some,
        ({
            let (before, after) = (accepted->Ok_0->0, result->Ok_0->0);
            &&& after.command == before.command
            &&& after.device@ == before.device@
            &&& after.baud == before.baud
            &&& after.count == before.count
            &&& after.size == before.size
            &&& after.timeout == before.timeout
        }),
{
    let (all, other) = (texts(args@), texts(swapped@));
    let (rest, moved) = (all.skip(1), other.skip(1));
    assert(other[0] == all[0]);
    assert(moved =~= rest.update(i - 1, rest[i + 1]).update(i, rest[i + 2]).update(
        i + 1,
        rest[i - 1],
    ).update(i + 2, rest[i]));
    lemma_options_change_places(
        rest,
        moved,
        defaults(command_of(all[0])->0),
        Seq::empty(),
        i - 1,
    );
}

} // verus!
