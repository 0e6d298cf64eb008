//! Full-step quadrature (Gray code) decoder for a rotary encoder.
use vstd::prelude::*;

verus! {

pub const START: u8 = 0x0;
pub const CW_FINAL: u8 = 0x1;
pub const CW_BEGIN: u8 = 0x2;
pub const CW_NEXT: u8 = 0x3;
pub const CCW_BEGIN: u8 = 0x4;
pub const CCW_FINAL: u8 = 0x5;
pub const CCW_NEXT: u8 = 0x6;
pub const DIR_CW: u8 = 0x10;
pub const DIR_CCW: u8 = 0x20;

/// A detent step reported by the decoder.
#[derive(Clone, Copy, PartialEq, Eq, Structural, Debug)]
pub enum Direction {
    Clockwise,
    CounterClockwise,
}

/// The pin levels as a two-bit number: `b` is bit 1, `a` is bit 0.
pub open spec fn pins_of(a: bool, b: bool) -> int {
    (if b { 2int } else { 0int }) + (if a { 1int } else { 0int })
}

/// The decoder's transition table: the row is the current state (without
/// direction flags), the column the pin levels.
pub open spec fn gray_table(row: int, pins: int) -> u8 {
    let table: Seq<Seq<u8>> = seq![
        seq![START, CW_BEGIN, CCW_BEGIN, START],
        seq![CW_NEXT, START, CW_FINAL, START | DIR_CW],
        seq![CW_NEXT, CW_BEGIN, START, START],
        seq![CW_NEXT, CW_BEGIN, CW_FINAL, START],
        seq![CCW_NEXT, START, CCW_BEGIN, START],
        seq![CCW_NEXT, CCW_FINAL, START, START | DIR_CCW],
        seq![CCW_NEXT, CCW_FINAL, CCW_BEGIN, START],
    ];
    table[row][pins]
}

/// The states the decoder can be in: a table row, or the start row with one
/// direction flag set.
pub open spec fn valid_decoder_state(s: u8) -> bool {
    s <= CCW_NEXT || s == DIR_CW || s == DIR_CCW
}

/// The table row of a decoder state (its direction flags cleared).
pub open spec fn row_of(s: u8) -> int {
    if s <= CCW_NEXT {
        s as int
    } else {
        0
    }
}

/// The state after the pins read `a` and `b`.
pub open spec fn next_decoder_state(s: u8, a: bool, b: bool) -> u8 {
    gray_table(row_of(s), pins_of(a, b))
}

/// The direction that a state announces, if it carries a direction flag.
pub open spec fn reported(s: u8) -> Option<Direction> {
    if s == DIR_CW {
        Some(Direction::Clockwise)
    } else if s == DIR_CCW {
        Some(Direction::CounterClockwise)
    } else {
        None
    }
}

/// A decoder state at rest: the start row, with or without a direction flag.
pub open spec fn at_rest(s: u8) -> bool {
    s == START || s == DIR_CW || s == DIR_CCW
}

/// Turning one detent clockwise from rest (pins 01, 00, 10, 11) reports
/// nothing on the first three edges and one clockwise step on the last, which
/// leaves the decoder at rest again.
pub proof fn lemma_clockwise_detent(s: u8)
    requires
        at_rest(s),
    ensures
        ({
            let s1 = next_decoder_state(s, true, false);
            let s2 = next_decoder_state(s1, false, false);
            let s3 = next_decoder_state(s2, false, true);
            let s4 = next_decoder_state(s3, true, true);
            &&& reported(s1) is None
            &&& reported(s2) is None
            &&& reported(s3) is None
            &&& reported(s4) == Some(Direction::Clockwise)
            &&& at_rest(s4)
        }),
{
    assert(START | DIR_CW == DIR_CW) by (bit_vector);
}

/// Turning one detent counter-clockwise from rest (pins 10, 00, 01, 11)
/// reports nothing on the first three edges and one counter-clockwise step on
/// the last, which leaves the decoder at rest again.
pub proof fn lemma_counter_clockwise_detent(s: u8)
    requires
        at_rest(s),
    ensures
        ({
            let s1 = next_decoder_state(s, false, true);
            let s2 = next_decoder_state(s1, false, false);
            let s3 = next_decoder_state(s2, true, false);
            let s4 = next_decoder_state(s3, true, true);
            &&& reported(s1) is None
            &&& reported(s2) is None
            &&& reported(s3) is None
            &&& reported(s4) == Some(Direction::CounterClockwise)
            &&& at_rest(s4)
        }),
{
    assert(START | DIR_CCW == DIR_CCW) by (bit_vector);
}

/// A step is only ever reported on the edge that brings both pins high, and
/// the decoder is then at rest.
pub proof fn lemma_reports_only_at_detent(s: u8, a: bool, b: bool)
    requires
        valid_decoder_state(s),
    ensures
        valid_decoder_state(next_decoder_state(s, a, b)),
        reported(next_decoder_state(s, a, b)) is Some ==> a && b && at_rest(
            next_decoder_state(s, a, b),
        ),
{
    assert(START | DIR_CW == DIR_CW && START | DIR_CCW == DIR_CCW) by (bit_vector);
}

/// Contact bounce at rest (both pins staying high) neither moves the decoder
/// out of its start row nor reports a step.
pub proof fn lemma_rest_is_stable(s: u8)
    requires
        at_rest(s),
    ensures
        next_decoder_state(s, true, true) == START,
        reported(next_decoder_state(s, true, true)) is None,
{
}

/// How many readings a state has advanced into a detent: 0 at rest, 3 one
/// reading before a step is reported.
pub open spec fn detent_progress(s: u8) -> int {
    if s == CW_BEGIN || s == CCW_BEGIN {
        1
    } else if s == CW_NEXT || s == CCW_NEXT {
        2
    } else if s == CW_FINAL || s == CCW_FINAL {
        3
    } else {
        0
    }
}

/// One reading advances a detent by at most one, and a step is only reported
/// from the last stage of a detent, which starts the next one afresh.
proof fn lemma_progress_step(s: u8, a: bool, b: bool)
    requires
        valid_decoder_state(s),
    ensures
        valid_decoder_state(next_decoder_state(s, a, b)),
        detent_progress(next_decoder_state(s, a, b)) <= detent_progress(s) + 1,
        reported(next_decoder_state(s, a, b)) is Some ==> detent_progress(s) == 3
            && detent_progress(next_decoder_state(s, a, b)) == 0,
{
    assert(START | DIR_CW == DIR_CW && START | DIR_CCW == DIR_CCW) by (bit_vector);
}

/// A reading repeated in the middle of a detent (as a bouncing contact
/// gives) leaves the decoder where it is: the stage a reading led to is kept
/// while the same reading lasts.
pub proof fn lemma_repeated_reading_is_stable(s: u8, a: bool, b: bool)
    requires
        valid_decoder_state(s),
        detent_progress(next_decoder_state(s, a, b)) > 0,
    ensures
        next_decoder_state(next_decoder_state(s, a, b), a, b) == next_decoder_state(s, a, b),
{
    assert(START | DIR_CW == DIR_CW && START | DIR_CCW == DIR_CCW) by (bit_vector);
}

/// A clockwise detent in which each reading may come twice (contact bounce)
/// still reports exactly one clockwise step, on its last reading.
pub proof fn lemma_bouncing_clockwise_detent(s: u8, r1: bool, r2: bool, r3: bool)
    requires
        at_rest(s),
    ensures
        ({
            let s1 = next_decoder_state(s, true, false);
            let s1b = if r1 { next_decoder_state(s1, true, false) } else { s1 };
            let s2 = next_decoder_state(s1b, false, false);
            let s2b = if r2 { next_decoder_state(s2, false, false) } else { s2 };
            let s3 = next_decoder_state(s2b, false, true);
            let s3b = if r3 { next_decoder_state(s3, false, true) } else { s3 };
            let s4 = next_decoder_state(s3b, true, true);
            &&& reported(s1b) is None
            &&& reported(s2b) is None
            &&& reported(s3b) is None
            &&& reported(s4) == Some(Direction::Clockwise)
        }),
{
    assert(START | DIR_CW == DIR_CW && START | DIR_CCW == DIR_CCW) by (bit_vector);
}

/// A counter-clockwise detent in which each reading may come twice still
/// reports exactly one counter-clockwise step, on its last reading.
pub proof fn lemma_bouncing_counter_clockwise_detent(s: u8, r1: bool, r2: bool, r3: bool)
    requires
        at_rest(s),
    ensures
        ({
            let s1 = next_decoder_state(s, false, true);
            let s1b = if r1 { next_decoder_state(s1, false, true) } else { s1 };
            let s2 = next_decoder_state(s1b, false, false);
            let s2b = if r2 { next_decoder_state(s2, false, false) } else { s2 };
            let s3 = next_decoder_state(s2b, true, false);
            let s3b = if r3 { next_decoder_state(s3, true, false) } else { s3 };
            let s4 = next_decoder_state(s3b, true, true);
            &&& reported(s1b) is None
            &&& reported(s2b) is None
            &&& reported(s3b) is None
            &&& reported(s4) == Some(Direction::CounterClockwise)
        }),
{
    assert(START | DIR_CW == DIR_CW && START | DIR_CCW == DIR_CCW) by (bit_vector);
}

/// The decoder state after the first `k` of the readings `(a, b)`, starting
/// from `s0`.
pub open spec fn state_after(s0: u8, readings: Seq<(bool, bool)>, k: nat) -> u8
    decreases k,
{
    if k == 0 {
        s0
    } else {
        next_decoder_state(
            state_after(s0, readings, (k - 1) as nat),
            readings[k - 1].0,
            readings[k - 1].1,
        )
    }
}

/// Every state reached from a valid state is valid.
proof fn lemma_state_after_valid(s0: u8, readings: Seq<(bool, bool)>, k: nat)
    requires
        valid_decoder_state(s0),
    ensures
        valid_decoder_state(state_after(s0, readings, k)),
    decreases k,
{
    if k > 0 {
        lemma_state_after_valid(s0, readings, (k - 1) as nat);
        lemma_progress_step(
            state_after(s0, readings, (k - 1) as nat),
            readings[k - 1].0,
            readings[k - 1].1,
        );
    }
}

/// From a point at rest, a detent advances at most one stage per reading.
proof fn lemma_progress_bound(s0: u8, readings: Seq<(bool, bool)>, i: nat, k: nat)
    requires
        valid_decoder_state(s0),
        i <= k,
        detent_progress(state_after(s0, readings, i)) == 0,
    ensures
        detent_progress(state_after(s0, readings, k)) <= k - i,
    decreases k,
{
    if k > i {
        lemma_progress_bound(s0, readings, i, (k - 1) as nat);
        lemma_state_after_valid(s0, readings, (k - 1) as nat);
        lemma_progress_step(
            state_after(s0, readings, (k - 1) as nat),
            readings[k - 1].0,
            readings[k - 1].1,
        );
    }
}

/// At most one step is reported per full quadrature cycle: starting at rest,
/// the first report comes at the fourth reading at the earliest, and two
/// reports are at least four readings apart.
pub proof fn lemma_one_report_per_cycle(s0: u8, readings: Seq<(bool, bool)>, i: nat, j: nat)
    requires
        at_rest(s0),
        i < j,
        reported(state_after(s0, readings, j)) is Some,
        i == 0 || reported(state_after(s0, readings, i)) is Some,
    ensures
        j - i >= 4,
{
    assert(valid_decoder_state(s0));
    lemma_progress_bound(s0, readings, i, (j - 1) as nat);
    lemma_state_after_valid(s0, readings, (j - 1) as nat);
    lemma_progress_step(
        state_after(s0, readings, (j - 1) as nat),
        readings[j - 1].0,
        readings[j - 1].1,
    );
}

pub struct GrayDecoder {
    state: u8,
}

impl View for GrayDecoder {
    type V = u8;

    closed spec fn view(&self) -> u8 {
        self.state
    }
}

impl GrayDecoder {
    #[verifier::type_invariant]
    closed spec fn inv(self) -> bool {
        valid_decoder_state(self.state)
    }

    /// A decoder at rest.
    pub fn new() -> (d: Self)
        ensures
            d@ == START,
    {
        Self { state: START }
    }

    /// Feeds the current levels of the two encoder pins; reports a direction
    /// when a full detent step has been completed.
    pub fn update(&mut self, a: bool, b: bool) -> (dir: Option<Direction>)
        ensures
            final(self)@ == next_decoder_state(old(self)@, a, b),
            dir == reported(final(self)@),
    {
        proof {
            use_type_invariant(&*self);
            assert(START | DIR_CW == DIR_CW && START | DIR_CCW == DIR_CCW) by (bit_vector);
        }
        let pins: u8 = ((b as u8) << 1u8) | (a as u8);
        let row: u8 = self.state & 0x0f;
        proof {
            let s = self.state;
            assert(s <= 6 || s == 0x10 || s == 0x20);
            assert((s <= 6 ==> s & 0x0f == s) && ((s == 0x10 || s == 0x20) ==> s & 0x0f == 0))
                by (bit_vector);
            assert(pins as int == pins_of(a, b)) by {
                let bb: u8 = b as u8;
                let aa: u8 = a as u8;
                assert(bb <= 1 && aa <= 1 ==> ((bb << 1u8) | aa) == 2 * bb + aa) by (bit_vector);
            }
        }
        let next = table_entry(row, pins);
        self.state = next;
        proof {
            assert(next == DIR_CW || next == DIR_CCW || next <= CCW_NEXT);
        }
        let flags: u8 = self.state & 0x30;
        proof {
            let s = self.state;
            assert((s <= 6 ==> s & 0x30 == 0) && (s == 0x10 ==> s & 0x30 == 0x10) && (s == 0x20
                ==> s & 0x30 == 0x20)) by (bit_vector);
        }
        if flags == DIR_CW {
            Some(Direction::Clockwise)
        } else if flags == DIR_CCW {
            Some(Direction::CounterClockwise)
        } else {
            None
        }
    }
}

/// One entry of the transition table.
fn table_entry(row: u8, pins: u8) -> (s: u8)
    requires
        row < 7,
        pins < 4,
    ensures
        s == gray_table(row as int, pins as int),
{
    let entries: [u8; 4] = match row {
        0 => [START, CW_BEGIN, CCW_BEGIN, START],
        1 => [CW_NEXT, START, CW_FINAL, START | DIR_CW],
        2 => [CW_NEXT, CW_BEGIN, START, START],
        3 => [CW_NEXT, CW_BEGIN, CW_FINAL, START],
        4 => [CCW_NEXT, START, CCW_BEGIN, START],
        5 => [CCW_NEXT, CCW_FINAL, START, START | DIR_CCW],
        _ => [CCW_NEXT, CCW_FINAL, CCW_BEGIN, START],
    };
    entries[pins as usize]
}

} // verus!
