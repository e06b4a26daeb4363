//! The input controller's decisions: which shared value a button combination
//! targets, whether the knob's value changes it, and the status report.
use vstd::prelude::*;

use crate::rgb::valid_levels;
use crate::{DEFAULT_FRAME_RATE, LEVELS};

verus! {

/// Frame rate, in Hz, at knob level 0; each further level adds as much again.
pub const FRAME_RATE_STEP: u64 = 10;

/// The shared value that the knob sets under a button combination.
#[derive(Clone, Copy, Debug, PartialEq, Eq, Structural)]
pub enum Target {
    Red,
    Green,
    Blue,
    FrameRate,
}

/// Both buttons pick red, B alone green, A alone blue, neither the frame rate.
pub open spec fn target_of(a: bool, b: bool) -> Target {
    if a && b {
        Target::Red
    } else if b {
        Target::Green
    } else if a {
        Target::Blue
    } else {
        Target::FrameRate
    }
}

/// The target of a button combination (`true` = pressed).
pub fn dispatch(a: bool, b: bool) -> (r: Target)
    ensures
        r == target_of(a, b),
{
    if a && b {
        Target::Red
    } else if b {
        Target::Green
    } else if a {
        Target::Blue
    } else {
        Target::FrameRate
    }
}

/// Every button combination has exactly one target, by priority both
/// buttons, then B, then A, then neither.
pub proof fn lemma_dispatch_priority(a: bool, b: bool)
    ensures
        (target_of(a, b) == Target::Red) == (a && b),
        (target_of(a, b) == Target::Green) == (b && !a),
        (target_of(a, b) == Target::Blue) == (a && !b),
        (target_of(a, b) == Target::FrameRate) == (!a && !b),
{
}

/// The frame rate that knob level `val` selects.
pub open spec fn knob_frame_rate_spec(val: int) -> int {
    FRAME_RATE_STEP + FRAME_RATE_STEP * val
}

/// Maps a knob level to a frame rate: `10 + 10 * val` Hz.
pub fn knob_frame_rate(val: u32) -> (r: u64)
    requires
        val < LEVELS,
    ensures
        r == knob_frame_rate_spec(val as int),
{
    FRAME_RATE_STEP + FRAME_RATE_STEP * val as u64
}

/// The channel index of a level target.
pub open spec fn channel_of(t: Target) -> int {
    match t {
        Target::Red => 0,
        Target::Green => 1,
        _ => 2,
    }
}

/// What an input cycle asks to be written to the shared state.
#[derive(Clone, Copy, Debug)]
pub enum Change {
    /// Nothing changed: no write, no report.
    Unchanged,
    /// A channel level changed: write the whole triple.
    Levels([u32; 3]),
    /// The frame rate changed: write it.
    FrameRate(u64),
}

/// The controller's record of what it last wrote.
#[derive(Clone, Copy, Debug)]
pub struct UiState {
    /// Levels of red, green and blue.
    pub levels: [u32; 3],
    /// Frame rate in Hz.
    pub frame_rate: u64,
}

/// `after` and the change `c` are what one input cycle with buttons `a`, `b`
/// and knob level `val` makes of `before`: the target gets `val` (or its frame
/// rate), and a change is reported only where the value differs.
pub open spec fn update_post(before: UiState, a: bool, b: bool, val: u32, after: UiState, c: Change) -> bool {
    let t = target_of(a, b);
    if t == Target::FrameRate {
        let fr = knob_frame_rate_spec(val as int);
        &&& after.levels@ == before.levels@
        &&& after.frame_rate == fr
        &&& c == if before.frame_rate == fr { Change::Unchanged } else { Change::FrameRate(fr as u64) }
    } else {
        let i = channel_of(t);
        &&& after.levels@ == before.levels@.update(i, val)
        &&& after.frame_rate == before.frame_rate
        &&& c == if before.levels[i] == val { Change::Unchanged } else { Change::Levels(after.levels) }
    }
}

/// The value that the target of `a`, `b` holds in `s`.
pub open spec fn current_of(s: UiState, a: bool, b: bool) -> int {
    let t = target_of(a, b);
    if t == Target::FrameRate {
        s.frame_rate as int
    } else {
        s.levels[channel_of(t)] as int
    }
}

/// The value that knob level `val` gives the target of `a`, `b`.
pub open spec fn candidate_of(a: bool, b: bool, val: u32) -> int {
    if target_of(a, b) == Target::FrameRate {
        knob_frame_rate_spec(val as int)
    } else {
        val as int
    }
}

/// Writing the value that the target already holds changes nothing and
/// reports nothing; so repeating an input cycle is a no-op.
pub proof fn lemma_update_idempotent(
    s0: UiState,
    a: bool,
    b: bool,
    val: u32,
    s1: UiState,
    c1: Change,
    s2: UiState,
    c2: Change,
)
    requires
        update_post(s0, a, b, val, s1, c1),
        update_post(s1, a, b, val, s2, c2),
    ensures
        current_of(s0, a, b) == candidate_of(a, b, val) ==> c1 == Change::Unchanged
            && s1.levels@ == s0.levels@ && s1.frame_rate == s0.frame_rate,
        c2 == Change::Unchanged,
        s2.levels@ == s1.levels@,
        s2.frame_rate == s1.frame_rate,
{
    if target_of(a, b) != Target::FrameRate {
        let i = channel_of(target_of(a, b));
        assert(s1.levels@[i] == val);
        assert(s0.levels[i] == s0.levels@[i]);
        assert(s1.levels[i] == s1.levels@[i]);
        if s0.levels[i] == val {
            assert(s1.levels@ =~= s0.levels@);
        }
        assert(s2.levels@ =~= s1.levels@);
    }
}

impl UiState {
    /// Levels in range and a frame rate that the knob can select.
    pub open spec fn wf(&self) -> bool {
        valid_levels(self.levels) && FRAME_RATE_STEP <= self.frame_rate <= knob_frame_rate_spec(
            LEVELS - 1,
        )
    }

    /// Takes one input cycle: buttons `a` and `b` (`true` = pressed) and knob
    /// level `val`. Records the new value of the target and says what to write.
    pub fn update(&mut self, a: bool, b: bool, val: u32) -> (r: Change)
        requires
            val < LEVELS,
        ensures
            update_post(*old(self), a, b, val, *final(self), r),
            old(self).wf() ==> final(self).wf(),
    {
        let target = dispatch(a, b);
        let i: usize = match target {
            Target::Red => 0,
            Target::Green => 1,
            Target::Blue => 2,
            Target::FrameRate => {
                let fr = knob_frame_rate(val);
                if self.frame_rate == fr {
                    return Change::Unchanged;
                }
                self.frame_rate = fr;
                return Change::FrameRate(fr);
            },
        };
        if self.levels[i] == val {
            proof {
                assert(self.levels@.update(i as int, val) =~= self.levels@);
            }
            return Change::Unchanged;
        }
        self.levels[i] = val;
        Change::Levels(self.levels)
    }
}

/// The character of decimal digit `d`.
pub open spec fn digit_char(d: nat) -> char {
    ((48 + d) as u8) as char
}

/// The decimal digits of `n`, most significant first, with no leading zeros.
pub open spec fn decimal(n: nat) -> Seq<char>
    decreases n,
{
    if n < 10 {
        seq![digit_char(n)]
    } else {
        decimal(n / 10).push(digit_char(n % 10))
    }
}

/// Relies on std's `ToString` for `u64`, through its `Display`: the number in
/// decimal, without sign or leading zeros.
#[verifier::external_body]
fn decimal_text(n: u64) -> (r: String)
    ensures
        r@ == decimal(n as nat),
{
    n.to_string()
}

/// The status report: a blank line, one `<color>: <level>` line per channel,
/// then `frame rate: <value>`, each line ended by a newline.
pub open spec fn status_text(levels: Seq<u32>, frame_rate: u64) -> Seq<char> {
    "\n"@ + "red: "@ + decimal(levels[0] as nat) + "\n"@ + "green: "@ + decimal(levels[1] as nat)
        + "\n"@ + "blue: "@ + decimal(levels[2] as nat) + "\n"@ + "frame rate: "@ + decimal(
        frame_rate as nat,
    ) + "\n"@
}

impl UiState {
    /// The status report of this state.
    pub fn show(&self) -> (r: String)
        ensures
            r@ == status_text(self.levels@, self.frame_rate),
    {
        let mut text = String::new();
        text.append("\n");
        text.append("red: ");
        text.append(decimal_text(self.levels[0] as u64).as_str());
        text.append("\n");
        text.append("green: ");
        text.append(decimal_text(self.levels[1] as u64).as_str());
        text.append("\n");
        text.append("blue: ");
        text.append(decimal_text(self.levels[2] as u64).as_str());
        text.append("\n");
        text.append("frame rate: ");
        text.append(decimal_text(self.frame_rate).as_str());
        text.append("\n");
        proof {
            assert(text@ =~= status_text(self.levels@, self.frame_rate));
        }
        text
    }
}

impl Default for UiState {
    /// All channels at full brightness, default frame rate.
    fn default() -> (r: Self)
        ensures
            r.levels@ == seq![(LEVELS - 1) as u32, (LEVELS - 1) as u32, (LEVELS - 1) as u32],
            r.frame_rate == DEFAULT_FRAME_RATE,
            r.wf(),
    {
        UiState { levels: [LEVELS - 1, LEVELS - 1, LEVELS - 1], frame_rate: DEFAULT_FRAME_RATE }
    }
}

} // verus!
