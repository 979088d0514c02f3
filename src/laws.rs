//! Laws of the toggle engine, proved over its state model.

use vstd::prelude::*;
use crate::engine::{
    flipped, runs, spec_register_start, selected_of, spec_poll, spec_press, spec_set_delay, spec_set_start,
    spec_set_stop, spec_toggle_key, start_delay, start_key, start_snapshot, wf_view, AkcView,
};
use crate::hotkey::ListenKey;

verus! {

/// At most one loop may run: two run tokens that are both allowed to go on
/// are the same token.
pub proof fn single_runner(v: AkcView, a: u64, b: u64)
    requires
        runs(v, a),
        runs(v, b),
    ensures
        a == b,
{
}

/// A start while running hands out no ticket, so repeated start presses spawn
/// no second loop; and a start that does hand one out retires every earlier
/// token, so an older loop stops at its next poll.
pub proof fn mutual_exclusion(v: AkcView, lk: ListenKey, g: u64)
    requires
        wf_view(v),
    ensures
        v.active ==> spec_press(v, lk).1 is None,
        spec_press(v, lk).1 is Some && g <= v.generation ==> !runs(spec_press(v, lk).0, g),
{
}

/// How many loop tickets a sequence of chord presses hands out.
pub open spec fn tickets_after(v: AkcView, s: Seq<ListenKey>) -> nat
    decreases s.len(),
{
    if s.len() == 0 {
        0
    } else {
        let (w, t) = spec_press(v, s[0]);
        (if t is Some { 1nat } else { 0nat }) + tickets_after(w, s.drop_first())
    }
}

proof fn lemma_alive_hands_out_none(v: AkcView, s: Seq<ListenKey>)
    requires
        v.alive,
    ensures
        tickets_after(v, s) == 0,
    decreases s.len(),
{
    if s.len() > 0 {
        let w = spec_press(v, s[0]).0;
        lemma_alive_hands_out_none(w, s.drop_first());
    }
}

/// However many times, and in whatever order, hotkeys fire, at most one
/// simulation loop is started until a loop reports its exit; none while a
/// loop is alive.
pub proof fn concurrent_starts(v: AkcView, s: Seq<ListenKey>)
    ensures
        tickets_after(v, s) <= 1,
        v.alive ==> tickets_after(v, s) == 0,
    decreases s.len(),
{
    if v.alive {
        lemma_alive_hands_out_none(v, s);
    } else if s.len() > 0 {
        let (w, t) = spec_press(v, s[0]);
        if t is Some {
            lemma_alive_hands_out_none(w, s.drop_first());
        } else {
            concurrent_starts(w, s.drop_first());
        }
    }
}

/// From idle, with the previous loop gone, any number of firings of the
/// start chord start exactly one loop.
pub proof fn exactly_one_start(v: AkcView, lk: ListenKey, s: Seq<ListenKey>)
    requires
        !v.active,
        !v.alive,
        v.generation < u64::MAX,
        start_key(v) == Some(lk),
        s.len() >= 1,
        forall|i: int| 0 <= i < s.len() ==> s[i] == lk,
    ensures
        tickets_after(v, s) == 1,
{
    let w = spec_press(v, s[0]).0;
    lemma_alive_hands_out_none(w, s.drop_first());
}

proof fn lemma_unbound_hands_out_none(v: AkcView, s: Seq<ListenKey>)
    requires
        v.start_slot is None,
    ensures
        tickets_after(v, s) == 0,
    decreases s.len(),
{
    if s.len() > 0 {
        lemma_unbound_hands_out_none(spec_press(v, s[0]).0, s.drop_first());
    }
}

/// With nothing selected, re-arming leaves the start hotkey unbound, and no
/// sequence of firings of any chord afterwards starts a loop.
pub proof fn empty_selection_never_starts(v: AkcView, back: Option<ListenKey>, s: Seq<ListenKey>)
    requires
        selected_of(v.selection).len() == 0,
    ensures
        spec_register_start(v, back).0.start_slot is None,
        tickets_after(spec_register_start(v, back).0, s) == 0,
{
    lemma_unbound_hands_out_none(spec_register_start(v, back).0, s);
}

/// One operation on the engine, as the hook, the loops and the window
/// perform them one at a time.
pub enum EngineEvent {
    Press(ListenKey),
    Poll(u64),
    Toggle(char),
    SetDelay(u64),
    SetStart(ListenKey),
    SetStop(ListenKey),
    Exit,
}

/// The loops alive in a state: the latest one while it has not exited.
pub open spec fn live_loops(v: AkcView) -> Set<u64> {
    if v.alive {
        set![v.generation]
    } else {
        Set::empty()
    }
}

/// One event, with the run tokens of the loops alive: a ticket adds a loop;
/// a live loop whose poll tells it to end leaves. A poll by no live loop
/// changes nothing.
pub open spec fn step(v: AkcView, live: Set<u64>, e: EngineEvent) -> (AkcView, Set<u64>) {
    match e {
        EngineEvent::Press(lk) => match spec_press(v, lk).1 {
            Some(t) => (spec_press(v, lk).0, live.insert(t.0)),
            None => (spec_press(v, lk).0, live),
        },
        EngineEvent::Poll(g) => if live.contains(g) {
            if spec_poll(v, g).1 {
                (spec_poll(v, g).0, live)
            } else {
                (spec_poll(v, g).0, live.remove(g))
            }
        } else {
            (v, live)
        },
        EngineEvent::Toggle(c) => (spec_toggle_key(v, c).0, live),
        EngineEvent::SetDelay(d) => (spec_set_delay(v, d).0, live),
        EngineEvent::SetStart(lk) => (spec_set_start(v, lk).0, live),
        EngineEvent::SetStop(lk) => (spec_set_stop(v, lk).0, live),
        EngineEvent::Exit => (AkcView { active: false, ..v }, live),
    }
}

/// The state and live loops after a sequence of events.
pub open spec fn run_events(v: AkcView, live: Set<u64>, es: Seq<EngineEvent>) -> (AkcView, Set<u64>)
    decreases es.len(),
{
    if es.len() == 0 {
        (v, live)
    } else {
        let (w, l) = step(v, live, es[0]);
        run_events(w, l, es.drop_first())
    }
}

proof fn lemma_step_keeps_live(v: AkcView, e: EngineEvent)
    ensures
        step(v, live_loops(v), e).1 == live_loops(step(v, live_loops(v), e).0),
{
    let (w, l) = step(v, live_loops(v), e);
    match e {
        EngineEvent::Press(lk) => {
            if spec_press(v, lk).1 is Some {
                assert(l =~= live_loops(w));
            }
        },
        EngineEvent::Poll(g) => {
            if live_loops(v).contains(g) && !spec_poll(v, g).1 {
                assert(l =~= live_loops(w));
            }
        },
        _ => {},
    }
}

/// Mutual exclusion of simulation loops: whatever operations happen, in
/// whatever order, the loops alive are exactly the latest one while it has
/// not exited, so never more than one.
pub proof fn at_most_one_live_loop(v: AkcView, es: Seq<EngineEvent>)
    ensures
        run_events(v, live_loops(v), es).1 == live_loops(run_events(v, live_loops(v), es).0),
        run_events(v, live_loops(v), es).1.len() <= 1,
    decreases es.len(),
{
    if es.len() > 0 {
        lemma_step_keeps_live(v, es[0]);
        let w = step(v, live_loops(v), es[0]).0;
        at_most_one_live_loop(w, es.drop_first());
    } else {
        if v.alive {
            assert(set![v.generation].len() == 1);
        }
    }
}

/// After a loop started with one selection, a key is toggled, the loop is
/// stopped and exits, the next start hands out the new selection.
pub proof fn next_start_uses_new_selection(v: AkcView, lk: ListenKey, c: char)
    requires
        wf_view(v),
        !v.active,
        !v.alive,
        v.generation < u64::MAX - 1,
        start_key(v) == Some(lk),
        v.stop_slot == Some(v.stop),
        selected_of(flipped(v.selection, c)).len() > 0,
    ensures
        ({
            let w1 = spec_press(v, lk).0;
            let g = w1.generation;
            let w2 = spec_toggle_key(w1, c).0;
            let w3 = spec_press(w2, v.stop).0;
            let w4 = spec_poll(w3, g).0;
            &&& !spec_poll(w3, g).1
            &&& spec_press(w4, lk).1 is Some
            &&& spec_press(w4, lk).1 == Some(
                (spec_press(w4, lk).0.generation, selected_of(flipped(v.selection, c)), v.delay),
            )
        }),
{
}

/// A stop press while idle leaves the engine as it was, run-state false,
/// and starts nothing.
pub proof fn idempotent_stop(v: AkcView, lk: ListenKey)
    requires
        wf_view(v),
        !v.active,
        v.stop_slot == Some(lk),
    ensures
        spec_press(v, lk).0 == v,
        spec_press(v, lk).1 is None,
        !spec_press(v, lk).0.active,
{
    assert(spec_press(v, lk).0 =~= v);
}

/// When toggling a key leaves nothing selected, the start hotkey is left
/// unregistered, and no press of any chord starts a loop.
pub proof fn empty_selection_guard(v: AkcView, c: char, lk: ListenKey)
    requires
        wf_view(v),
        selected_of(flipped(v.selection, c)).len() == 0,
    ensures
        spec_toggle_key(v, c).0.start_slot is None,
        spec_press(spec_toggle_key(v, c).0, lk).1 is None,
{
}

/// After the start chord is changed from A to B, pressing A starts nothing,
/// and pressing B starts a loop (with some key selected, B not the stop
/// chord, and the engine idle).
pub proof fn rebind_correctness(v: AkcView, b: ListenKey)
    requires
        wf_view(v),
        b != v.start,
        b != v.stop,
        selected_of(v.selection).len() > 0,
        !v.active,
        !v.alive,
        v.generation < u64::MAX,
    ensures
        spec_press(spec_set_start(v, b).0, v.start).1 is None,
        spec_press(spec_set_start(v, b).0, b).1 is Some,
{
}

/// A running loop keeps its frozen snapshot: after a start, toggling a key
/// leaves the loop's token valid, and only the re-armed start registration
/// (the next start) sees the new selection.
pub proof fn snapshot_freeze(v: AkcView, lk: ListenKey, c: char)
    requires
        wf_view(v),
        !v.active,
        !v.alive,
        v.generation < u64::MAX,
        start_key(v) == Some(lk),
    ensures
        spec_press(v, lk).1 == Some(
            (spec_press(v, lk).0.generation, start_snapshot(v), start_delay(v)),
        ),
        runs(spec_toggle_key(spec_press(v, lk).0, c).0, spec_press(v, lk).0.generation),
        spec_toggle_key(spec_press(v, lk).0, c).0.active,
        spec_toggle_key(spec_press(v, lk).0, c).0.selection == flipped(v.selection, c),
        selected_of(flipped(v.selection, c)).len() > 0 ==> start_snapshot(
            spec_toggle_key(spec_press(v, lk).0, c).0,
        ) == selected_of(flipped(v.selection, c)),
{
}

} // verus!
