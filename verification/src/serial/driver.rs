//! The TTY driver: its registration, and the line numbers it hands out.
//!
//! A [`Driver`] lives as long as its module. Registration is a hand-over with
//! serial core, so it has a beginning and an end; in between, the driver is
//! neither free nor usable.

use vstd::prelude::*;
use vstd::std_specs::bits::axiom_u64_trailing_zeros;
use crate::bits::lemma_map_bits;
use crate::errno::Errno;

verus! {

/// Largest supported line count; one bit of the line map per line.
pub const MAX_LINES: u32 = 64;

/// Static description of a TTY driver.
#[derive(Clone, Copy, Debug)]
pub struct DriverInfo {
    /// Name shown under `/proc/tty/driver/`.
    pub driver_name: &'static str,
    /// Device node prefix; line `n` becomes `/dev/<dev_name><n>`.
    pub dev_name: &'static str,
    /// Number of lines, at most [`MAX_LINES`].
    pub lines: u32,
}

/// What serial core is given when a driver registers.
#[derive(Clone, Copy, Debug)]
pub struct CoreDriver {
    pub driver_name: &'static str,
    pub dev_name: &'static str,
    /// Number of lines.
    pub nr: i32,
}

/// How far a driver is with serial core.
#[derive(Clone, Copy, Debug, PartialEq, Eq, Structural)]
pub enum DriverState {
    /// Serial core does not know the driver.
    Unregistered,
    /// Serial core has been asked, and has not answered.
    Registering,
    /// Serial core knows the driver; lines can be added.
    Registered,
}

/// Line `n` is taken in the line map `used`.
pub open spec fn line_taken(used: u64, n: u64) -> bool {
    (used >> n) & 1 == 1
}

/// A TTY driver.
pub struct Driver {
    info: DriverInfo,
    lines: u64,
    state: DriverState,
}

impl Driver {
    /// The static description.
    pub closed spec fn description(self) -> DriverInfo {
        self.info
    }

    /// The line map: bit `n` is set while line `n` belongs to a port.
    pub closed spec fn line_map(self) -> u64 {
        self.lines
    }

    /// How far the driver is with serial core.
    pub closed spec fn progress(self) -> DriverState {
        self.state
    }

    /// Line `n` belongs to a port.
    pub open spec fn taken(self, n: u64) -> bool {
        line_taken(self.line_map(), n)
    }

    /// The line count is one that serial core can be given.
    pub open spec fn lines_valid(self) -> bool {
        0 < self.description().lines <= MAX_LINES
    }

    /// Only a driver with a valid line count is ever on its way to serial
    /// core, and only lines that exist are taken.
    pub open spec fn wf(self) -> bool {
        &&& self.progress() != DriverState::Unregistered ==> self.lines_valid()
        &&& forall|n: u64| n < 64 && self.taken(n) ==> n < self.description().lines
    }

    /// An unregistered driver.
    pub fn new(info: DriverInfo) -> (driver: Self)
        ensures
            driver.wf(),
            driver.description() == info,
            driver.line_map() == 0,
            driver.progress() == DriverState::Unregistered,
    {
        let driver = Driver { info, lines: 0, state: DriverState::Unregistered };
        assert forall|n: u64| n < 64 implies !driver.taken(n) by {
            lemma_map_bits(0, 0, n);
        }
        driver
    }

    /// The static description this driver was created with.
    pub fn info(&self) -> (info: &DriverInfo)
        ensures
            *info == self.description(),
    {
        &self.info
    }

    /// How far the driver is with serial core.
    pub fn state(&self) -> (state: DriverState)
        ensures
            state == self.progress(),
    {
        self.state
    }

    /// The line map.
    pub fn lines(&self) -> (lines: u64)
        ensures
            lines == self.line_map(),
    {
        self.lines
    }

    /// Begins registration. After `Ok`, the caller hands the description to
    /// serial core and reports the answer to [`Driver::registered`].
    pub fn register(&mut self) -> (result: Result<CoreDriver, Errno>)
        requires
            old(self).wf(),
        ensures
            final(self).wf(),
            final(self).description() == old(self).description(),
            final(self).line_map() == old(self).line_map(),
            match result {
                Ok(core) => {
                    &&& core.driver_name == old(self).description().driver_name
                    &&& core.dev_name == old(self).description().dev_name
                    &&& core.nr == old(self).description().lines
                    &&& old(self).lines_valid()
                    &&& old(self).progress() == DriverState::Unregistered
                    &&& final(self).progress() == DriverState::Registering
                },
                Err(error) => {
                    &&& *final(self) == *old(self)
                    &&& if !old(self).lines_valid() {
                        error == Errno::EINVAL
                    } else {
                        error == Errno::EBUSY && old(self).progress() != DriverState::Unregistered
                    }
                },
            },
    {
        if self.info.lines == 0 || self.info.lines > MAX_LINES {
            return Err(Errno::EINVAL);
        }
        if self.state != DriverState::Unregistered {
            return Err(Errno::EBUSY);
        }
        self.state = DriverState::Registering;
        assert(forall|n: u64| self.taken(n) == old(self).taken(n));
        Ok(
            CoreDriver {
                driver_name: self.info.driver_name,
                dev_name: self.info.dev_name,
                nr: self.info.lines as i32,
            },
        )
    }

    /// Ends the registration that [`Driver::register`] began, with serial
    /// core's answer. A refused driver can be registered again.
    pub fn registered(self, answer: Result<(), Errno>) -> (result: Result<
        Registration,
        (Driver, Errno),
    >)
        requires
            self.wf(),
            self.progress() == DriverState::Registering,
        ensures
            match result {
                Ok(registration) => {
                    &&& answer is Ok
                    &&& registration.registered_driver().wf()
                    &&& registration.registered_driver().progress() == DriverState::Registered
                    &&& registration.registered_driver().description() == self.description()
                    &&& registration.registered_driver().line_map() == self.line_map()
                },
                Err((driver, error)) => {
                    &&& answer == Err::<(), Errno>(error)
                    &&& driver.wf()
                    &&& driver.progress() == DriverState::Unregistered
                    &&& driver.description() == self.description()
                    &&& driver.line_map() == self.line_map()
                },
            },
    {
        match answer {
            Ok(()) => {
                let driver = Driver {
                    info: self.info,
                    lines: self.lines,
                    state: DriverState::Registered,
                };
                assert(forall|n: u64| driver.taken(n) == self.taken(n));
                Ok(Registration { driver })
            },
            Err(error) => {
                let driver = Driver {
                    info: self.info,
                    lines: self.lines,
                    state: DriverState::Unregistered,
                };
                assert(forall|n: u64| driver.taken(n) == self.taken(n));
                Err((driver, error))
            },
        }
    }
}

/// A driver that serial core knows.
pub struct Registration {
    driver: Driver,
}

impl Registration {
    /// The registered driver.
    pub closed spec fn registered_driver(self) -> Driver {
        self.driver
    }

    /// The registered driver.
    pub fn driver(&self) -> (driver: &Driver)
        ensures
            *driver == self.registered_driver(),
    {
        &self.driver
    }

    /// The registered driver, for adding and removing ports.
    pub fn driver_mut(&mut self) -> (driver: &mut Driver)
        ensures
            *driver == old(self).registered_driver(),
            final(self).registered_driver() == *final(driver),
    {
        &mut self.driver
    }

    /// Gives the registration up. With `Ok` the caller takes the driver away
    /// from serial core. With `Err` lines are still in use: the registration
    /// stays, because serial core would free line state that ports still use.
    pub fn unregister(self) -> (result: Result<Driver, Registration>)
        requires
            self.registered_driver().wf(),
        ensures
            match result {
                Ok(driver) => {
                    &&& self.registered_driver().line_map() == 0
                    &&& driver.wf()
                    &&& driver.line_map() == 0
                    &&& driver.description() == self.registered_driver().description()
                    &&& driver.progress() == DriverState::Unregistered
                },
                Err(kept) => self.registered_driver().line_map() != 0 && kept == self,
            },
    {
        if self.driver.lines != 0 {
            return Err(self);
        }
        let driver = Driver {
            info: self.driver.info,
            lines: 0,
            state: DriverState::Unregistered,
        };
        assert(forall|n: u64| driver.taken(n) == self.driver.taken(n));
        Ok(driver)
    }
}

/// Line `index` is the lowest of `count` lines that is free in `used`.
pub open spec fn lowest_free(used: u64, count: u32, index: u32) -> bool {
    &&& index < count
    &&& !line_taken(used, index as u64)
    &&& forall|n: u64| n < index ==> line_taken(used, n)
}

/// No line below `count` is free in `used`.
pub open spec fn all_taken(used: u64, count: u32) -> bool {
    forall|n: u64| n < count ==> line_taken(used, n)
}

/// `after` differs from `before` in line `index` alone, which it has `taken`.
pub open spec fn only_line_changed(before: u64, after: u64, index: u32, taken: bool) -> bool {
    forall|n: u64|
        n < 64 ==> line_taken(after, n) == (if n == index {
            taken
        } else {
            line_taken(before, n)
        })
}

/// Ownership of one line index of a driver.
pub struct Line {
    index: u32,
}

impl Line {
    /// The line number.
    pub closed spec fn number(self) -> u32 {
        self.index
    }

    /// The line number.
    pub fn index(&self) -> (index: u32)
        ensures
            index == self.number(),
    {
        self.index
    }

    /// Picks the lowest free line of a line map: its index, and the map with
    /// that line taken. A map shared between processors is then replaced
    /// atomically, and the pick is repeated on the map found there instead.
    pub fn pick(used: u64, count: u32) -> (result: Result<(u32, u64), Errno>)
        requires
            count <= MAX_LINES,
        ensures
            match result {
                Ok((index, next)) => lowest_free(used, count, index) && only_line_changed(
                    used,
                    next,
                    index,
                    true,
                ),
                Err(error) => error == Errno::EBUSY && all_taken(used, count),
            },
    {
        let free = !used;
        let index = free.trailing_zeros();
        proof {
            axiom_u64_trailing_zeros(free);
            assert forall|n: u64| n < index implies line_taken(used, n) by {
                assert((free >> n) & 1u64 == 0u64);
                lemma_map_bits(used, 0, n);
            }
        }
        if index >= count {
            return Err(Errno::EBUSY);
        }
        let next = used | (1u64 << index);
        proof {
            let i = index as u64;
            lemma_map_bits(used, i, i);
            assert forall|n: u64| n < 64 implies line_taken(next, n) == (if n == index {
                true
            } else {
                line_taken(used, n)
            }) by {
                lemma_map_bits(used, i, n);
            }
        }
        Ok((index, next))
    }

    /// A line map with line `index` freed.
    pub fn free(used: u64, index: u32) -> (next: u64)
        requires
            index < MAX_LINES,
        ensures
            only_line_changed(used, next, index, false),
    {
        let next = used & !(1u64 << index);
        proof {
            let i = index as u64;
            assert forall|n: u64| n < 64 implies line_taken(next, n) == (if n == index {
                false
            } else {
                line_taken(used, n)
            }) by {
                lemma_map_bits(used, i, n);
            }
        }
        next
    }

    /// Takes the lowest free line of `driver`.
    pub fn allocate(driver: &mut Driver) -> (result: Result<Line, Errno>)
        requires
            old(driver).wf(),
            old(driver).description().lines <= MAX_LINES,
        ensures
            final(driver).wf(),
            final(driver).description() == old(driver).description(),
            final(driver).progress() == old(driver).progress(),
            match result {
                Ok(line) => {
                    &&& lowest_free(
                        old(driver).line_map(),
                        old(driver).description().lines,
                        line.number(),
                    )
                    &&& only_line_changed(
                        old(driver).line_map(),
                        final(driver).line_map(),
                        line.number(),
                        true,
                    )
                },
                Err(error) => {
                    &&& error == Errno::EBUSY
                    &&& all_taken(old(driver).line_map(), old(driver).description().lines)
                    &&& *final(driver) == *old(driver)
                },
            },
    {
        let (index, next) = match Line::pick(driver.lines, driver.info.lines) {
            Ok(picked) => picked,
            Err(error) => {
                return Err(error);
            },
        };
        driver.lines = next;
        assert(forall|n: u64| n < 64 && driver.taken(n) ==> n == index || old(driver).taken(n));
        Ok(Line { index })
    }

    /// Gives the line back to `driver`.
    pub fn release(self, driver: &mut Driver)
        requires
            old(driver).wf(),
            self.number() < MAX_LINES,
        ensures
            final(driver).wf(),
            final(driver).description() == old(driver).description(),
            final(driver).progress() == old(driver).progress(),
            only_line_changed(
                old(driver).line_map(),
                final(driver).line_map(),
                self.number(),
                false,
            ),
    {
        driver.lines = Line::free(driver.lines, self.index);
        assert(forall|n: u64| n < 64 && driver.taken(n) ==> old(driver).taken(n));
    }
}

// ---------------------------------------------------------------------------
// Laws
// ---------------------------------------------------------------------------

/// Two line maps in which the same lines are taken are the same map.
pub proof fn lemma_line_map_ext(a: u64, b: u64)
    requires
        forall|n: u64| n < 64 ==> line_taken(a, n) == line_taken(b, n),
    ensures
        a == b,
{
    let x = a ^ b;
    axiom_u64_trailing_zeros(x);
    if x != 0 {
        let n = vstd::std_specs::bits::u64_trailing_zeros(x) as u64;
        assert(line_taken(a, n) == line_taken(b, n));
        assert(((a >> n) & 1 == 1) != ((b >> n) & 1 == 1)) by (bit_vector)
            requires
                x == a ^ b,
                (x >> n) & 1u64 == 1u64,
                n < 64,
        ;
    }
    assert(a == b) by (bit_vector)
        requires
            x == a ^ b,
            x == 0,
    ;
}

/// A line is never handed out twice: while it is taken, no allocation gives it.
pub proof fn law_lines_are_exclusive(used: u64, count: u32, held: u32, index: u32)
    requires
        line_taken(used, held as u64),
        lowest_free(used, count, index),
    ensures
        index != held,
{
}

/// Releasing the line that was just taken restores the line map.
pub proof fn law_release_undoes_allocation(before: u64, taken: u64, after: u64, index: u32)
    requires
        index < MAX_LINES,
        !line_taken(before, index as u64),
        only_line_changed(before, taken, index, true),
        only_line_changed(taken, after, index, false),
    ensures
        after == before,
{
    assert forall|n: u64| n < 64 implies line_taken(after, n) == line_taken(before, n) by {
        assert(line_taken(taken, n) == (if n == index {
            true
        } else {
            line_taken(before, n)
        }));
    }
    lemma_line_map_ext(after, before);
}

/// A line map is zero exactly when no line is taken, which is when the
/// driver can be unregistered.
pub proof fn law_unregister_needs_all_lines_free(used: u64)
    ensures
        used == 0 <==> forall|n: u64| n < 64 ==> !line_taken(used, n),
{
    assert forall|n: u64| n < 64 implies !line_taken(0, n) by {
        lemma_map_bits(0, 0, n);
    }
    if forall|n: u64| n < 64 ==> !line_taken(used, n) {
        lemma_line_map_ext(used, 0);
    }
}

/// The lowest free line is the lowest clear bit of the map, and taking it sets
/// that bit alone; a map is full when its low bits are all set.
pub proof fn law_lowest_line_is_picked(
    used: u64,
    count: u32,
    result: Result<(u32, u64), Errno>,
    n: u64,
)
    requires
        count <= 64,
        n < 64,
        call_ensures(Line::pick, (used, count), result),
    ensures
        result is Ok ==> {
            let (index, next) = result->Ok_0;
            &&& index < count
            &&& n < index ==> (used >> n) & 1 == 1
            &&& n == index ==> (used >> n) & 1 != 1 && (next >> n) & 1 == 1
            &&& n != index ==> ((next >> n) & 1 == 1 <==> (used >> n) & 1 == 1)
        },
        result is Err ==> result->Err_0 == Errno::EBUSY && (n < count ==> (used >> n) & 1 == 1),
{
    if result is Ok {
        let (index, next) = result->Ok_0;
        assert(line_taken(next, n) == (if n == index {
            true
        } else {
            line_taken(used, n)
        }));
        assert(n < index ==> line_taken(used, n));
        assert(!line_taken(used, index as u64));
    } else {
        assert(n < count ==> line_taken(used, n));
    }
}

/// Freeing a line clears its bit alone.
pub proof fn law_freed_line_is_cleared(used: u64, index: u32, next: u64, n: u64)
    requires
        index < 64,
        n < 64,
        call_ensures(Line::free, (used, index), next),
    ensures
        n == index ==> (next >> n) & 1 != 1,
        n != index ==> ((next >> n) & 1 == 1 <==> (used >> n) & 1 == 1),
{
    assert(line_taken(next, n) == (if n == index {
        false
    } else {
        line_taken(used, n)
    }));
}

/// A driver registers once, with one to 64 lines: otherwise it is refused for
/// its line count, or for being registered already. Serial core is given its
/// description.
pub proof fn law_driver_registers_once(driver: &mut Driver, result: Result<CoreDriver, Errno>)
    requires
        call_ensures(Driver::register, (driver,), result),
        old(driver).wf(),
    ensures
        ({
            let lines = old(driver).description().lines;
            let fits = 1 <= lines <= 64;
            &&& result is Ok <==> fits && old(driver).progress() == DriverState::Unregistered
            &&& !fits ==> result == Err::<CoreDriver, Errno>(Errno::EINVAL)
            &&& fits && result is Err ==> result->Err_0 == Errno::EBUSY
            &&& result is Ok ==> result->Ok_0.nr == lines && final(driver).progress()
                == DriverState::Registering
                    && result->Ok_0.driver_name == old(driver).description().driver_name
                    && result->Ok_0.dev_name == old(driver).description().dev_name
            &&& result is Err ==> *final(driver) == *old(driver)
        }),
{
}

/// A registration ends with serial core's answer: it keeps the description and
/// the lines, and a refused driver can be registered again.
pub proof fn law_registration_follows_the_answer(
    driver: Driver,
    answer: Result<(), Errno>,
    result: Result<Registration, (Driver, Errno)>,
)
    requires
        driver.wf(),
        driver.progress() == DriverState::Registering,
        call_ensures(Driver::registered, (driver, answer), result),
    ensures
        result is Ok <==> answer is Ok,
        ({
            let after = match result {
                Ok(registration) => registration.registered_driver(),
                Err((refused, _)) => refused,
            };
            &&& after.description() == driver.description()
            &&& after.line_map() == driver.line_map()
            &&& result is Ok ==> after.progress() == DriverState::Registered
            &&& result is Err ==> after.progress() == DriverState::Unregistered
        }),
        result is Err ==> answer == Err::<(), Errno>(result->Err_0.1),
{
}

/// A registration is given up only while no line is taken; otherwise it stays
/// as it was.
pub proof fn law_busy_registration_stays(
    registration: Registration,
    result: Result<Driver, Registration>,
    view: &Driver,
)
    requires
        registration.registered_driver().wf(),
        call_ensures(Registration::unregister, (registration,), result),
        call_ensures(Registration::driver, (&registration,), view),
    ensures
        result is Ok <==> view.line_map() == 0,
        result is Err ==> result->Err_0 == registration,
        result is Ok ==> result->Ok_0.progress() == DriverState::Unregistered
            && result->Ok_0.line_map() == 0 && result->Ok_0.description() == view.description(),
{
}

/// A line that was allocated and released leaves the map as it was, and in
/// between the driver has that line and no other more; a new driver has none.
pub proof fn law_line_is_owned_in_between(
    info: DriverInfo,
    fresh: Driver,
    taking: &mut Driver,
    result: Result<Line, Errno>,
    index: u32,
    giving: &mut Driver,
    lines: u64,
    n: u64,
)
    requires
        call_ensures(Driver::new, (info,), fresh),
        old(taking).wf(),
        old(taking).description().lines <= 64,
        call_ensures(Line::allocate, (taking,), result),
        result is Ok,
        call_ensures(Line::index, (&result->Ok_0,), index),
        *old(giving) == *final(taking),
        call_ensures(Line::release, (result->Ok_0, giving), ()),
        call_ensures(Driver::lines, (giving,), lines),
        n < 64,
    ensures
        fresh.description() == info && fresh.line_map() == 0 && fresh.progress()
            == DriverState::Unregistered,
        index < old(taking).description().lines,
        (old(taking).line_map() >> index as u64) & 1 != 1,
        n == index ==> (final(taking).line_map() >> n) & 1 == 1,
        n != index ==> ((final(taking).line_map() >> n) & 1 == 1 <==> (old(taking).line_map() >> n)
            & 1 == 1),
        lines == final(taking).line_map(),
        final(giving).line_map() == old(taking).line_map(),
        final(giving).description() == old(taking).description(),
        final(giving).progress() == old(taking).progress(),
{
    let (a, b, c) = (old(taking).line_map(), final(taking).line_map(), final(giving).line_map());
    assert(line_taken(b, n) == (if n == index {
        true
    } else {
        line_taken(a, n)
    }));
    assert forall|k: u64| k < 64 implies line_taken(c, k) == line_taken(a, k) by {
        assert(line_taken(c, k) == (if k == index {
            false
        } else {
            line_taken(b, k)
        }));
        assert(line_taken(b, k) == (if k == index {
            true
        } else {
            line_taken(a, k)
        }));
    }
    lemma_line_map_ext(c, a);
}

/// A driver gives out its lowest free line while it has one, and is busy when
/// all of its lines are taken, and only then.
pub proof fn law_lines_are_given_out_in_order(
    driver: &mut Driver,
    result: Result<Line, Errno>,
    index: u32,
    n: u64,
)
    requires
        old(driver).wf(),
        old(driver).description().lines <= 64,
        call_ensures(Line::allocate, (driver,), result),
        result is Ok ==> call_ensures(Line::index, (&result->Ok_0,), index),
    ensures
        result is Ok ==> index < old(driver).description().lines && (old(driver).line_map()
            >> index as u64) & 1 != 1,
        result is Ok && n < index ==> (old(driver).line_map() >> n) & 1 == 1,
        result is Err ==> result->Err_0 == Errno::EBUSY && *final(driver) == *old(driver),
        result is Err && n < old(driver).description().lines ==> (old(driver).line_map() >> n) & 1
            == 1,
        final(driver).description() == old(driver).description(),
        final(driver).progress() == old(driver).progress(),
{
    let map = old(driver).line_map();
    if result is Ok {
        assert(!line_taken(map, index as u64));
        assert(n < index ==> line_taken(map, n));
    } else {
        assert(n < old(driver).description().lines ==> line_taken(map, n));
    }
}

} // verus!
