//! The engine's cross-function guarantees, each proved once over the spec
//! transitions and so holding of every caller of the exec functions that
//! implement them: session-slot exclusivity and the start/stop round trip,
//! the provenance of recorded pointer positions over whole input runs, the
//! watcher watermark's monotonicity and at-most-once hand-over, the
//! boundary behaviours of the capture filter, and the agreement of segment
//! name formatting and parsing.

use vstd::prelude::*;

use crate::capture::{spec_capture_cursor, spec_capture_record, CaptureState};
use crate::devents::{DeventRequest, OsEvent, OsKey};
use crate::json::spec_u64_str;
use crate::recorder::{
    spec_confirm_start, spec_finish_stop, spec_request_start, spec_request_stop, RecorderState,
};
use crate::session::{RecorderError, RecordingSession};
use crate::text::{all_digits, digit_val, digits_val, is_digit_char};
use crate::watcher::{
    spec_chunk_name, spec_highest_index, spec_monitor_step, spec_pad4, spec_parse_chunk_index,
};

verus! {

// ---------------------------------------------------------------------
// Runs of the capture filter
// ---------------------------------------------------------------------
/// One delivery from the OS input stream together with the stop flag and
/// the clock reading observed for it.
pub struct CaptureInput {
    pub stop: bool,
    pub now_nanos: Option<i64>,
    pub ev: OsEvent,
}

/// A delivery that moves the cached pointer position: an un-stopped,
/// clocked pointer movement.
pub open spec fn is_effective_move(inp: CaptureInput) -> bool {
    !inp.stop && inp.now_nanos is Some && inp.ev is MouseMove
}

/// The predicate value of `is_effective_move`, shared so that every
/// statement filters with one and the same function.
pub open spec fn effective_move_pred() -> spec_fn(CaptureInput) -> bool {
    |inp: CaptureInput| is_effective_move(inp)
}

/// The cursor state and the recorded events after a whole run of the
/// capture filter over a sequence of deliveries.
pub open spec fn spec_capture_run(c: CaptureState, inputs: Seq<CaptureInput>, sid: u128) -> (
    CaptureState,
    Seq<DeventRequest>,
)
    decreases inputs.len(),
{
    if inputs.len() == 0 {
        (c, Seq::empty())
    } else {
        let prior = spec_capture_run(c, inputs.drop_last(), sid);
        let last = inputs.last();
        let moved = spec_capture_cursor(prior.0, last.stop, last.now_nanos, last.ev);
        match spec_capture_record(prior.0, last.stop, last.now_nanos, last.ev, sid) {
            Some(e) => (moved, prior.1.push(e)),
            None => (moved, prior.1),
        }
    }
}

/// Every event a capture run records carries the session identifier it
/// ran under.
pub proof fn lemma_run_records_carry_session_id(
    c: CaptureState,
    inputs: Seq<CaptureInput>,
    sid: u128,
)
    ensures
        forall|k: int|
            0 <= k < spec_capture_run(c, inputs, sid).1.len() ==> (#[trigger] spec_capture_run(
                c,
                inputs,
                sid,
            ).1[k]).session_id == sid,
    decreases inputs.len(),
{
    if inputs.len() > 0 {
        lemma_run_records_carry_session_id(c, inputs.drop_last(), sid);
    }
}

/// The cached pointer position after a run depends on the effective
/// pointer movements alone: dropping every other delivery leaves it
/// unchanged. This is the "updated only on moves" half of the position
/// provenance guarantee.
pub proof fn lemma_cursor_set_only_by_moves(c: CaptureState, inputs: Seq<CaptureInput>, sid: u128)
    ensures
        spec_capture_run(c, inputs, sid).0 == spec_capture_run(
            c,
            inputs.filter(effective_move_pred()),
            sid,
        ).0,
    decreases inputs.len(),
{
    reveal(Seq::filter);
    let p = effective_move_pred();
    if inputs.len() == 0 {
        assert(inputs.filter(p) =~= inputs);
    } else {
        let prefix = inputs.drop_last();
        let last = inputs.last();
        lemma_cursor_set_only_by_moves(c, prefix, sid);
        assert(inputs.filter(p) == if p(last) {
            prefix.filter(p).push(last)
        } else {
            prefix.filter(p)
        });
        if p(last) {
            let f = prefix.filter(p).push(last);
            assert(f.drop_last() =~= prefix.filter(p));
            assert(f.last() == last);
        }
    }
}

/// `a` is an initial run of `b`.
pub open spec fn seq_is_prefix(a: Seq<DeventRequest>, b: Seq<DeventRequest>) -> bool {
    a.len() <= b.len() && a == b.subrange(0, a.len() as int)
}

/// What a run has recorded after any initial segment of its deliveries is
/// an initial run of what it records in full: a delivery never changes an
/// event recorded before it. In particular no pointer movement rewrites
/// the position of an earlier record — the "read on other events" half of
/// the position provenance guarantee.
pub proof fn lemma_later_deliveries_leave_earlier_records(
    c: CaptureState,
    inputs: Seq<CaptureInput>,
    sid: u128,
    k: int,
)
    requires
        0 <= k <= inputs.len(),
    ensures
        seq_is_prefix(
            spec_capture_run(c, inputs.take(k), sid).1,
            spec_capture_run(c, inputs, sid).1,
        ),
    decreases inputs.len() - k,
{
    if k == inputs.len() {
        assert(inputs.take(k) =~= inputs);
        let outs = spec_capture_run(c, inputs, sid).1;
        assert(outs.subrange(0, outs.len() as int) =~= outs);
    } else {
        let shorter = inputs.take(inputs.len() - 1);
        assert(shorter =~= inputs.drop_last());
        assert(inputs.take(k) =~= shorter.take(k));
        lemma_later_deliveries_leave_earlier_records(c, shorter, sid, k);
        let a = spec_capture_run(c, inputs.take(k), sid).1;
        let b = spec_capture_run(c, inputs.drop_last(), sid).1;
        let full = spec_capture_run(c, inputs, sid).1;
        assert(seq_is_prefix(a, b));
        assert(a =~= full.subrange(0, a.len() as int));
    }
}

// ---------------------------------------------------------------------
// Boundary behaviours of the capture filter
// ---------------------------------------------------------------------
/// A run that saw no effective pointer movement leaves the cached
/// position where it started.
pub proof fn lemma_run_without_moves_keeps_cursor(
    c: CaptureState,
    inputs: Seq<CaptureInput>,
    sid: u128,
)
    requires
        forall|i: int| 0 <= i < inputs.len() ==> !is_effective_move(#[trigger] inputs[i]),
    ensures
        spec_capture_run(c, inputs, sid).0 == c,
    decreases inputs.len(),
{
    if inputs.len() > 0 {
        let prefix = inputs.drop_last();
        assert(forall|i: int| 0 <= i < prefix.len() ==> !is_effective_move(#[trigger] prefix[i]));
        lemma_run_without_moves_keeps_cursor(c, prefix, sid);
        assert(!is_effective_move(inputs.last()));
    }
}

/// A key press delivered before any pointer movement is recorded at the
/// origin: position (0, 0).
pub proof fn lemma_key_before_any_move_is_at_origin(
    inputs: Seq<CaptureInput>,
    key: OsKey,
    now: i64,
    sid: u128,
)
    requires
        forall|i: int| 0 <= i < inputs.len() ==> !is_effective_move(#[trigger] inputs[i]),
    ensures
        ({
            let c = spec_capture_run(CaptureState { last_x: 0, last_y: 0 }, inputs, sid).0;
            let r = spec_capture_record(c, false, Some(now), OsEvent::KeyPress(key), sid);
            r is Some && r->Some_0.mouse_x == 0 && r->Some_0.mouse_y == 0
        }),
{
    lemma_run_without_moves_keeps_cursor(CaptureState { last_x: 0, last_y: 0 }, inputs, sid);
}

/// A wheel event with zero deltas is still recorded, with zeros.
pub proof fn lemma_zero_wheel_recorded(c: CaptureState, now: i64, sid: u128)
    ensures
        ({
            let r = spec_capture_record(
                c,
                false,
                Some(now),
                OsEvent::Wheel { delta_x: 0, delta_y: 0 },
                sid,
            );
            r is Some && r->Some_0.scroll_action == Some(crate::devents::ScrollAction { x: 0, y: 0 })
                && r->Some_0.mouse_action is None && r->Some_0.keyboard_action is None
        }),
{
    assert(0i64 as i32 == 0i32) by (bit_vector);
}

/// A delivery without a clock reading is dropped whole — nothing is
/// recorded and the cached position does not move — and the very next
/// delivery behaves as if the dropped one had never happened.
pub proof fn lemma_clock_failure_drops_only_that_event(
    c: CaptureState,
    ev1: OsEvent,
    inp2: CaptureInput,
    sid: u128,
)
    ensures
        spec_capture_record(c, false, None, ev1, sid) is None,
        spec_capture_cursor(c, false, None, ev1) == c,
        ({
            let dropped = CaptureInput { stop: false, now_nanos: None, ev: ev1 };
            spec_capture_run(c, seq![dropped, inp2], sid) == spec_capture_run(c, seq![inp2], sid)
        }),
{
    let dropped = CaptureInput { stop: false, now_nanos: None, ev: ev1 };
    let two = seq![dropped, inp2];
    let one = seq![inp2];
    assert(two.drop_last() =~= seq![dropped]);
    assert(seq![dropped].drop_last() =~= Seq::<CaptureInput>::empty());
    assert(one.drop_last() =~= Seq::<CaptureInput>::empty());
    assert(spec_capture_run(c, Seq::<CaptureInput>::empty(), sid) == (
        c,
        Seq::<DeventRequest>::empty(),
    ));
    assert(spec_capture_run(c, seq![dropped], sid).0 == c);
    assert(spec_capture_run(c, seq![dropped], sid).1 =~= Seq::<DeventRequest>::empty());
    assert(spec_capture_run(c, two, sid).0 == spec_capture_run(c, one, sid).0);
    assert(spec_capture_run(c, two, sid).1 =~= spec_capture_run(c, one, sid).1);
}

// ---------------------------------------------------------------------
// Session-slot exclusivity and the start/stop round trip
// ---------------------------------------------------------------------
/// A start against an occupied slot is rejected with `AlreadyActive` and
/// changes nothing at all — in particular the session in the slot stays
/// exactly as it was. With the slot being a single option, at most one
/// session exists at any instant.
pub proof fn lemma_occupied_slot_rejects_start(s: RecorderState, session: RecordingSession)
    requires
        s.store.slot is Some,
    ensures
        spec_request_start(s, session) == (s, Result::<(), RecorderError>::Err(
            RecorderError::AlreadyActive,
        )),
{
}

/// Two starts without an intervening stop: the first succeeds, the second
/// is rejected with `AlreadyActive`, and the first session remains intact
/// in the slot.
pub proof fn lemma_second_start_rejected(
    s: RecorderState,
    session1: RecordingSession,
    session2: RecordingSession,
)
    requires
        s.store.slot is None,
    ensures
        spec_request_start(s, session1).1 is Ok,
        ({
            let s1 = spec_request_start(s, session1).0;
            spec_request_start(s1, session2) == (s1, Result::<(), RecorderError>::Err(
                RecorderError::AlreadyActive,
            )) && s1.store.slot == Some(session1)
        }),
{
}

/// A start followed by a stop leaves the session slot empty and the
/// controller idle, and the drained batch is exactly the session's event
/// buffer.
pub proof fn lemma_start_then_stop_leaves_slot_empty(s: RecorderState, session: RecordingSession)
    requires
        s.store.slot is None,
    ensures
        ({
            let s1 = spec_request_start(s, session).0;
            let s2 = spec_confirm_start(s1);
            let s3 = spec_request_stop(s2).0;
            let s4 = spec_finish_stop(s3).0;
            spec_request_start(s, session).1 is Ok && spec_request_stop(s2).1 is Ok
                && s4.store.slot is None && s4.phase is Idle
        }),
{
}

/// Two stops: the first succeeds, the second is rejected with `NotActive`
/// and has no effect on the state whatsoever.
pub proof fn lemma_second_stop_rejected(s: RecorderState)
    requires
        s.store.slot is Some,
    ensures
        spec_request_stop(s).1 is Ok,
        ({
            let s3 = spec_request_stop(s).0;
            let s4 = spec_finish_stop(s3).0;
            spec_request_stop(s4) == (s4, Result::<(), RecorderError>::Err(
                RecorderError::NotActive,
            ))
        }),
{
}

/// After the stop sequence completes, the controller considers no worker
/// of the preceding start runnable any more.
pub proof fn lemma_stop_clears_workers(s: RecorderState)
    ensures
        !spec_finish_stop(s).0.encoder_worker,
        !spec_finish_stop(s).0.capture_worker,
        !spec_finish_stop(s).0.watcher_worker,
{
}

// ---------------------------------------------------------------------
// Watcher watermark: monotone, and each segment handed over at most once
// ---------------------------------------------------------------------
/// The watermark and the segment indices handed to the uploader over a
/// whole run of watcher scans.
pub open spec fn spec_monitor_run(saved: int, listings: Seq<Seq<Seq<char>>>) -> (int, Seq<int>)
    decreases listings.len(),
{
    if listings.len() == 0 {
        (saved, Seq::empty())
    } else {
        let prior = spec_monitor_run(saved, listings.drop_last());
        let step = spec_monitor_step(listings.last(), prior.0);
        if step.0 is Some {
            (step.1, prior.1.push(step.1 - 1))
        } else {
            (step.1, prior.1)
        }
    }
}

/// Over any run of scans the watermark never decreases, every index
/// handed to the uploader lies below the final watermark, and the indices
/// are handed over in strictly increasing order.
pub proof fn lemma_monitor_run_watermark(saved: int, listings: Seq<Seq<Seq<char>>>)
    ensures
        spec_monitor_run(saved, listings).0 >= saved,
        forall|k: int|
            0 <= k < spec_monitor_run(saved, listings).1.len() ==> #[trigger] spec_monitor_run(
                saved,
                listings,
            ).1[k] < spec_monitor_run(saved, listings).0,
        forall|j: int, k: int|
            0 <= j < k < spec_monitor_run(saved, listings).1.len() ==> spec_monitor_run(
                saved,
                listings,
            ).1[j] < spec_monitor_run(saved, listings).1[k],
    decreases listings.len(),
{
    if listings.len() > 0 {
        lemma_monitor_run_watermark(saved, listings.drop_last());
    }
}

/// No segment index is handed to the uploader twice: over any run of
/// scans, two distinct hand-overs carry distinct indices.
pub proof fn lemma_segment_uploaded_at_most_once(
    saved: int,
    listings: Seq<Seq<Seq<char>>>,
    j: int,
    k: int,
)
    requires
        0 <= j < spec_monitor_run(saved, listings).1.len(),
        0 <= k < spec_monitor_run(saved, listings).1.len(),
        j != k,
    ensures
        spec_monitor_run(saved, listings).1[j] != spec_monitor_run(saved, listings).1[k],
{
    lemma_monitor_run_watermark(saved, listings);
}

// ---------------------------------------------------------------------
// Segment names: formatting and parsing agree
// ---------------------------------------------------------------------
/// The decimal rendering of a natural number is a non-empty digit run
/// whose value is the number itself.
pub proof fn lemma_u64_str_digits(n: nat)
    ensures
        spec_u64_str(n).len() >= 1,
        all_digits(spec_u64_str(n)),
        digits_val(spec_u64_str(n)) == n,
        n >= 10 ==> spec_u64_str(n).len() >= 2,
        n >= 100 ==> spec_u64_str(n).len() >= 3,
        n >= 1000 ==> spec_u64_str(n).len() >= 4,
    decreases n,
{
    if n < 10 {
        let s = spec_u64_str(n);
        assert(s.drop_last() =~= Seq::<char>::empty());
        assert(digits_val(Seq::<char>::empty()) == 0);
        assert(digits_val(s) == digits_val(s.drop_last()) * 10 + digit_val(s.last()));
        assert(digits_val(s) == digit_val(crate::json::digit_char(n)));
        assert(digit_val(crate::json::digit_char(n)) == n);
        assert(is_digit_char(crate::json::digit_char(n)));
    } else {
        lemma_u64_str_digits(n / 10);
        let s = spec_u64_str(n);
        let head = spec_u64_str(n / 10);
        assert(s.drop_last() =~= head);
        assert(s.last() == crate::json::digit_char(n % 10));
        assert(is_digit_char(crate::json::digit_char(n % 10)));
        assert(digit_val(crate::json::digit_char(n % 10)) == n % 10);
        assert(digits_val(s) == digits_val(head) * 10 + (n % 10));
        assert(digits_val(head) == n / 10);
        assert((n / 10) * 10 + n % 10 == n) by (nonlinear_arith);
        assert(forall|i: int| 0 <= i < s.len() ==> is_digit_char(#[trigger] s[i])) by {
            assert(forall|i: int| 0 <= i < head.len() ==> is_digit_char(#[trigger] head[i]));
            assert(forall|i: int| 0 <= i < s.len() - 1 ==> s[i] == head[i]);
        };
    }
}

/// Prepending one zero to a digit run leaves its value unchanged.
pub proof fn lemma_leading_zero_keeps_value(s: Seq<char>)
    ensures
        digits_val(seq!['0'] + s) == digits_val(s),
        all_digits(s) ==> all_digits(seq!['0'] + s),
    decreases s.len(),
{
    let t = seq!['0'] + s;
    if s.len() == 0 {
        assert(t =~= seq!['0']);
        assert(t.drop_last() =~= Seq::<char>::empty());
        assert(digits_val(Seq::<char>::empty()) == 0);
        assert(digits_val(t) == digits_val(t.drop_last()) * 10 + digit_val(t.last()));
        assert(digit_val('0') == 0);
    } else {
        lemma_leading_zero_keeps_value(s.drop_last());
        assert(t.drop_last() =~= seq!['0'] + s.drop_last());
        assert(t.last() == s.last());
    }
}

/// The zero-padded digits of a segment index form at least four digits
/// whose value is the index.
pub proof fn lemma_pad4_digits(n: nat)
    ensures
        spec_pad4(n).len() >= 4,
        all_digits(spec_pad4(n)),
        digits_val(spec_pad4(n)) == n,
{
    lemma_u64_str_digits(n);
    let d = spec_u64_str(n);
    if n < 10 {
        assert(seq!['0', '0', '0'] + d =~= seq!['0'] + (seq!['0'] + (seq!['0'] + d)));
        lemma_leading_zero_keeps_value(d);
        lemma_leading_zero_keeps_value(seq!['0'] + d);
        lemma_leading_zero_keeps_value(seq!['0'] + (seq!['0'] + d));
    } else if n < 100 {
        assert(seq!['0', '0'] + d =~= seq!['0'] + (seq!['0'] + d));
        lemma_leading_zero_keeps_value(d);
        lemma_leading_zero_keeps_value(seq!['0'] + d);
    } else if n < 1000 {
        lemma_leading_zero_keeps_value(d);
    }
}

/// Parsing a formatted segment name gives back exactly the index it was
/// formatted from: the watcher's formatter and parser agree on every
/// index.
pub proof fn lemma_chunk_name_roundtrip(n: u32)
    ensures
        spec_parse_chunk_index(spec_chunk_name(n as nat)) == Some(n),
{
    reveal_strlit("chunk_");
    reveal_strlit(".mkv");
    lemma_pad4_digits(n as nat);
    let pad = spec_pad4(n as nat);
    let name = spec_chunk_name(n as nat);
    assert(name.len() == 6 + pad.len() + 4);
    assert(name.subrange(0, 6) =~= "chunk_"@);
    assert(name.subrange(name.len() - 4, name.len() as int) =~= ".mkv"@);
    assert(name.subrange(6, name.len() - 4) =~= pad);
}

/// The highest index of a listing lies in u32 range.
pub proof fn lemma_highest_index_bounds(names: Seq<Seq<char>>)
    ensures
        0 <= spec_highest_index(names) <= u32::MAX,
    decreases names.len(),
{
    if names.len() > 0 {
        lemma_highest_index_bounds(names.drop_last());
    }
}

/// A scan that hands a segment over hands over the highest index of its
/// listing: the watermark advances exactly past it, the index was not
/// below the watermark, and the name handed over parses back to it.
pub proof fn lemma_monitor_step_hands_over_highest(names: Seq<Seq<char>>, saved: int)
    requires
        spec_monitor_step(names, saved).0 is Some,
    ensures
        spec_monitor_step(names, saved).1 == spec_highest_index(names) + 1,
        spec_highest_index(names) >= saved,
        spec_parse_chunk_index(spec_monitor_step(names, saved).0->Some_0) == Some(
            spec_highest_index(names) as u32,
        ),
{
    lemma_highest_index_bounds(names);
    lemma_chunk_name_roundtrip(spec_highest_index(names) as u32);
}

} // verus!
