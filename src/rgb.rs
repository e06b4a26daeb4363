//! The brightness driver: from levels and a frame rate to the on and off
//! phases of each channel slot.
use vstd::prelude::*;

use crate::LEVELS;

verus! {

/// Microseconds in one second.
pub const MICROS_PER_SECOND: u64 = 1_000_000;

/// Number of color channels driven in one frame.
pub const CHANNELS: u64 = 3;

/// Largest frame rate whose tick computation fits in a `u64`: the divisor is
/// `CHANNELS * LEVELS`, 48, times the frame rate.
pub const MAX_FRAME_RATE: u64 = 0xFFFF_FFFF_FFFF_FFFF / 48;

/// Tick time at the lowest frame rate, one frame per second.
pub const MAX_TICK_TIME: u64 = 20_833;

/// Microseconds per brightness tick at the given frame rate.
pub open spec fn tick_time_of(frame_rate: int) -> int {
    MICROS_PER_SECOND as int / (CHANNELS * frame_rate * LEVELS)
}

/// A frame rate the driver can work with.
pub open spec fn valid_frame_rate(frame_rate: u64) -> bool {
    1 <= frame_rate <= MAX_FRAME_RATE
}

/// One output operation of the driver.
#[derive(Clone, Copy, Debug, PartialEq, Eq, Structural)]
pub enum PinAction {
    /// Drive the channel's pin high.
    High(usize),
    /// Drive the channel's pin low.
    Low(usize),
    /// Hold the pins as they are for this many microseconds.
    Wait(u64),
}

/// What the driver does for one channel slot: a pulse of `level` ticks
/// (none at level 0), then the rest of the `LEVELS` ticks low (none when
/// nothing is left).
pub open spec fn slot_actions(led: usize, level: int, tick_time: int) -> Seq<PinAction> {
    let on = if level > 0 {
        seq![PinAction::High(led), PinAction::Wait((level * tick_time) as u64), PinAction::Low(led)]
    } else {
        Seq::empty()
    };
    let off = if LEVELS - level > 0 {
        seq![PinAction::Wait(((LEVELS - level) * tick_time) as u64)]
    } else {
        Seq::empty()
    };
    on + off
}

/// Total time that a sequence of actions waits.
pub open spec fn waited(actions: Seq<PinAction>) -> int
    decreases actions.len(),
{
    if actions.len() == 0 {
        0
    } else {
        let rest = waited(actions.drop_last());
        match actions.last() {
            PinAction::Wait(us) => rest + us,
            _ => rest,
        }
    }
}

/// A channel slot lasts `LEVELS` ticks whatever the channel's level, from
/// fully off to fully on, so no channel's level moves another's timing.
pub proof fn lemma_slot_duration(led: usize, level: int, tick_time: int)
    requires
        0 <= level < LEVELS,
        0 <= tick_time <= MAX_TICK_TIME,
    ensures
        waited(slot_actions(led, level, tick_time)) == LEVELS * tick_time,
{
    assert(0 <= level * tick_time <= LEVELS * MAX_TICK_TIME) by (nonlinear_arith)
        requires 0 <= level < LEVELS, 0 <= tick_time <= MAX_TICK_TIME;
    assert(0 <= (LEVELS - level) * tick_time <= LEVELS * MAX_TICK_TIME) by (nonlinear_arith)
        requires 0 <= level < LEVELS, 0 <= tick_time <= MAX_TICK_TIME;
    assert(level * tick_time + (LEVELS - level) * tick_time == LEVELS * tick_time) by (nonlinear_arith);
    let s = slot_actions(led, level, tick_time);
    if level > 0 {
        assert(s.drop_last().drop_last().drop_last().drop_last().len() == 0);
        reveal_with_fuel(waited, 5);
    } else {
        assert(s.drop_last().len() == 0);
        reveal_with_fuel(waited, 2);
    }
}

/// Brightness driver: time-multiplexes three output pins, one channel slot
/// after another, each slot `LEVELS` ticks long.
pub struct Rgb<P> {
    /// Output pins of the red, green and blue channels.
    rgb: [P; 3],
    /// Levels of the frame in progress.
    levels: [u32; 3],
    /// Microseconds per brightness tick, derived from the frame rate.
    tick_time: u64,
}

/// Every channel's level lies in `0..LEVELS`.
pub open spec fn valid_levels(levels: [u32; 3]) -> bool {
    forall|i: int| 0 <= i < 3 ==> #[trigger] levels[i] < LEVELS
}

impl<P> Rgb<P> {
    /// Output pins of red, green and blue, in that order.
    pub closed spec fn pins_spec(&self) -> [P; 3] {
        self.rgb
    }

    /// Levels of the frame in progress.
    pub closed spec fn levels_spec(&self) -> [u32; 3] {
        self.levels
    }

    /// Microseconds per brightness tick.
    pub closed spec fn tick_time_spec(&self) -> u64 {
        self.tick_time
    }

    /// Levels in range, and a tick no longer than at one frame per second.
    pub closed spec fn wf(&self) -> bool {
        valid_levels(self.levels) && self.tick_time <= MAX_TICK_TIME
    }

    /// Time per brightness tick: one frame is three channel slots of `LEVELS` ticks.
    pub fn frame_tick_time(frame_rate: u64) -> (r: u64)
        requires
            valid_frame_rate(frame_rate),
        ensures
            r == tick_time_of(frame_rate as int),
            r <= MAX_TICK_TIME,
    {
        let d: u64 = CHANNELS * frame_rate * LEVELS as u64;
        assert(CHANNELS * LEVELS as u64 <= d) by (nonlinear_arith)
            requires
                d == CHANNELS * frame_rate * LEVELS as u64,
                frame_rate >= 1,
        ;
        proof {
            vstd::arithmetic::div_mod::lemma_div_is_ordered_by_denominator(
                MICROS_PER_SECOND as int,
                (CHANNELS * LEVELS as u64) as int,
                d as int,
            );
        }
        assert(MICROS_PER_SECOND as int / (CHANNELS * LEVELS as u64) as int == MAX_TICK_TIME)
            by (nonlinear_arith);
        MICROS_PER_SECOND / d
    }

    /// A driver for the given pins, all channels off, ticks for `frame_rate`.
    pub fn new(rgb: [P; 3], frame_rate: u64) -> (r: Self)
        requires
            valid_frame_rate(frame_rate),
        ensures
            r.wf(),
            r.pins_spec() == rgb,
            r.levels_spec()@ == seq![0u32, 0u32, 0u32],
            r.tick_time_spec() == tick_time_of(frame_rate as int),
    {
        let tick_time = Self::frame_tick_time(frame_rate);
        Rgb { rgb, levels: [0; 3], tick_time }
    }

    /// Takes the levels and frame rate read at the start of a frame.
    pub fn refresh(&mut self, levels: [u32; 3], frame_rate: u64)
        requires
            valid_levels(levels),
            valid_frame_rate(frame_rate),
        ensures
            final(self).wf(),
            final(self).pins_spec() == old(self).pins_spec(),
            final(self).levels_spec() == levels,
            final(self).tick_time_spec() == tick_time_of(frame_rate as int),
    {
        self.levels = levels;
        self.tick_time = Self::frame_tick_time(frame_rate);
    }

    /// The actions of channel `led`'s slot in the frame in progress.
    pub fn step(&self, led: usize) -> (r: Vec<PinAction>)
        requires
            self.wf(),
            led < 3,
        ensures
            r@ == slot_actions(led, self.levels_spec()[led as int] as int, self.tick_time_spec() as int),
            waited(r@) == LEVELS * self.tick_time_spec(),
    {
        let level: u32 = self.levels[led];
        let mut actions: Vec<PinAction> = Vec::new();
        if level > 0 {
            assert(level as u64 * self.tick_time <= LEVELS as u64 * MAX_TICK_TIME) by (nonlinear_arith)
                        requires
                    level < LEVELS,
                    self.tick_time <= MAX_TICK_TIME,
            ;
            let on_time: u64 = level as u64 * self.tick_time;
            actions.push(PinAction::High(led));
            actions.push(PinAction::Wait(on_time));
            actions.push(PinAction::Low(led));
        }
        let rest: u32 = LEVELS - level;
        if rest > 0 {
            assert(rest as u64 * self.tick_time <= LEVELS as u64 * MAX_TICK_TIME) by (nonlinear_arith)
                requires
                    rest <= LEVELS,
                    self.tick_time <= MAX_TICK_TIME,
            ;
            let off_time: u64 = rest as u64 * self.tick_time;
            actions.push(PinAction::Wait(off_time));
        }
        proof {
            assert(actions@ =~= slot_actions(led, level as int, self.tick_time as int));
            lemma_slot_duration(led, level as int, self.tick_time as int);
        }
        actions
    }

    /// The output pin of channel `led`, to carry out its actions.
    pub fn pin_mut(&mut self, led: usize) -> (r: &mut P)
        requires
            led < 3,
        ensures
            *r == old(self).pins_spec()[led as int],
    {
        &mut self.rgb[led]
    }
}

} // verus!
