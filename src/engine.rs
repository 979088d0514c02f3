//! The toggle engine: the run-state, the key selection, the delay, and a
//! model of what the global hotkey hook has registered. Every operation is a
//! transition of that state; the hook calls that it asks for are returned so
//! that the caller can keep the operating system's hook in step.

use vstd::prelude::*;
use crate::catalog::{catalog, catalog_keys, CATALOG_LEN};
use crate::hotkey::{FunctionKey, ListenKey};

verus! {

/// Smallest delay between two sweeps, in milliseconds.
pub const MIN_DELAY_MILLIS: u64 = 100;

/// The keys selected and the delay, frozen when the start hotkey was bound.
pub struct Snapshot {
    pub keys: Vec<char>,
    pub delay: u64,
}

/// The start hotkey's registration, with the snapshot that a start uses.
pub struct StartBinding {
    pub hotkey: ListenKey,
    pub snapshot: Snapshot,
}

/// What a simulation loop is started with: its run token, the keys to sweep
/// and the pause after each sweep.
pub struct LoopTicket {
    pub generation: u64,
    pub keys: Vec<char>,
    pub delay: u64,
}

/// A call that the hotkey hook must receive to match the engine's registry.
#[derive(Clone, Copy, Debug, PartialEq, Eq, Structural)]
pub enum HookCall {
    Unregister(ListenKey),
    Register(ListenKey),
}

/// The engine. `selection[i]` tells whether the `i`-th key of the virtual
/// keyboard is selected; `active` is the run-state; `generation` is the run
/// token of the latest start; `alive` tells whether the loop of that start
/// has not yet reported its exit.
pub struct Akc {
    pub start: ListenKey,
    pub stop: ListenKey,
    pub delay: u64,
    pub selection: Vec<bool>,
    pub start_slot: Option<StartBinding>,
    pub stop_slot: Option<ListenKey>,
    pub active: bool,
    pub generation: u64,
    pub alive: bool,
}

/// The engine as a mathematical value.
#[verifier::ext_equal]
pub struct AkcView {
    pub start: ListenKey,
    pub stop: ListenKey,
    pub delay: u64,
    pub selection: Seq<bool>,
    /// Registered start chord, its frozen key snapshot and delay.
    pub start_slot: Option<(ListenKey, Seq<char>, u64)>,
    pub stop_slot: Option<ListenKey>,
    pub active: bool,
    pub generation: u64,
    pub alive: bool,
}

impl View for Akc {
    type V = AkcView;

    open spec fn view(&self) -> AkcView {
        AkcView {
            start: self.start,
            stop: self.stop,
            delay: self.delay,
            selection: self.selection@,
            start_slot: match self.start_slot {
                Some(b) => Some((b.hotkey, b.snapshot.keys@, b.snapshot.delay)),
                None => None,
            },
            stop_slot: self.stop_slot,
            active: self.active,
            generation: self.generation,
            alive: self.alive,
        }
    }
}

/// What a ticket hands to the loop: run token, keys and delay.
pub open spec fn ticket_view(t: Option<LoopTicket>) -> Option<(u64, Seq<char>, u64)> {
    match t {
        Some(t) => Some((t.generation, t.keys@, t.delay)),
        None => None,
    }
}

/// Selected keys among the first `n` of the virtual keyboard, in its order.
pub open spec fn selected_prefix(sel: Seq<bool>, n: nat) -> Seq<char>
    decreases n,
{
    if n == 0 {
        Seq::empty()
    } else {
        let p = selected_prefix(sel, (n - 1) as nat);
        if sel[n - 1] {
            p.push(catalog()[n - 1])
        } else {
            p
        }
    }
}

/// The selected keys, in the order of the virtual keyboard.
pub open spec fn selected_of(sel: Seq<bool>) -> Seq<char> {
    selected_prefix(sel, catalog().len())
}

/// The chord of the start registration, if any.
pub open spec fn start_key(v: AkcView) -> Option<ListenKey> {
    match v.start_slot {
        Some(b) => Some(b.0),
        None => None,
    }
}

/// The frozen keys of the start registration (empty when there is none).
pub open spec fn start_snapshot(v: AkcView) -> Seq<char> {
    match v.start_slot {
        Some(b) => b.1,
        None => Seq::empty(),
    }
}

/// The start registration, if any, has keys to press, a delay not below the
/// minimum, and is for the start
/// chord, or for `back`, the chord that is about to be dropped.
pub open spec fn start_slot_ok(v: AkcView, back: Option<ListenKey>) -> bool {
    v.start_slot is Some ==> start_snapshot(v).len() > 0 && start_delay(v) >= MIN_DELAY_MILLIS
        && (start_key(v) == Some(v.start) || start_key(v) == back)
}

/// The stop registration, if any, is for the stop chord or for `back`.
pub open spec fn stop_slot_ok(v: AkcView, back: Option<ListenKey>) -> bool {
    v.stop_slot is Some ==> (v.stop_slot == Some(v.stop) || v.stop_slot == back)
}

/// The start and stop registrations never hold the same chord.
pub open spec fn slots_apart(v: AkcView) -> bool {
    v.start_slot is Some && v.stop_slot is Some ==> start_key(v) != v.stop_slot
}

/// The delay frozen in the start registration (zero when there is none).
pub open spec fn start_delay(v: AkcView) -> u64 {
    match v.start_slot {
        Some(b) => b.2,
        None => 0,
    }
}

/// The engine's invariant: one flag per key of the virtual keyboard; the
/// delay is not below its minimum; a start
/// registration is for the current start chord and has keys to press; a stop
/// registration is for the current stop chord; the two never share a chord.
pub open spec fn wf_view(v: AkcView) -> bool {
    &&& v.selection.len() == catalog().len()
    &&& v.delay >= MIN_DELAY_MILLIS
    &&& start_slot_ok(v, None)
    &&& stop_slot_ok(v, None)
    &&& slots_apart(v)
}

/// Whether the loop holding run token `g` may go on.
pub open spec fn runs(v: AkcView, g: u64) -> bool {
    v.active && v.generation == g
}

/// Removing whatever is registered under a chord; nothing there is no error.
pub open spec fn spec_unregister(v: AkcView, lk: ListenKey) -> AkcView {
    AkcView {
        start_slot: if start_key(v) == Some(lk) { None } else { v.start_slot },
        stop_slot: if v.stop_slot == Some(lk) { None } else { v.stop_slot },
        ..v
    }
}

/// Re-arming the start hotkey: drop the start registration, whichever chord
/// it holds (the start chord or `back`, the one it had before), take a fresh
/// snapshot of the selection and the delay, and bind the start chord to it
/// exactly when some key is selected and the stop registration does not hold
/// that chord.
pub open spec fn spec_register_start(v: AkcView, back: Option<ListenKey>) -> (AkcView, Seq<HookCall>) {
    let c1: Seq<HookCall> = match start_key(v) {
        Some(k) => seq![HookCall::Unregister(k)],
        None => Seq::empty(),
    };
    let v1 = AkcView { start_slot: None, ..v };
    let snap = selected_of(v.selection);
    if snap.len() > 0 && v.stop_slot != Some(v.start) {
        (
            AkcView { start_slot: Some((v.start, snap, v.delay)), ..v1 },
            c1.push(HookCall::Register(v.start)),
        )
    } else {
        (v1, c1)
    }
}

/// Re-arming the stop hotkey: drop the stop registration, whichever chord it
/// holds, and bind the stop chord unless the start registration holds it.
pub open spec fn spec_register_stop(v: AkcView, back: Option<ListenKey>) -> (AkcView, Seq<HookCall>) {
    let c1: Seq<HookCall> = match v.stop_slot {
        Some(k) => seq![HookCall::Unregister(k)],
        None => Seq::empty(),
    };
    let v1 = AkcView { stop_slot: None, ..v };
    if start_key(v) != Some(v.stop) {
        (AkcView { stop_slot: Some(v.stop), ..v1 }, c1.push(HookCall::Register(v.stop)))
    } else {
        (v1, c1)
    }
}

/// A press of a chord. So that at most one loop is ever alive, a start is
/// refused until the previous loop has polled and exited, that is for up to
/// one sweep and one delay after a stop. On the start chord, when idle and
/// with no loop alive,
/// the run-state goes from false to true and a loop is handed a fresh run
/// token with the frozen snapshot; on
/// the stop chord, it goes from true to false; anything else changes nothing.
pub open spec fn spec_press(v: AkcView, lk: ListenKey) -> (AkcView, Option<(u64, Seq<char>, u64)>) {
    if start_key(v) == Some(lk) {
        if !v.active && !v.alive && v.generation < u64::MAX {
            let g = (v.generation + 1) as u64;
            let b = v.start_slot->0;
            (AkcView { active: true, generation: g, alive: true, ..v }, Some((g, b.1, b.2)))
        } else {
            (v, None)
        }
    } else if v.stop_slot == Some(lk) {
        (AkcView { active: false, ..v }, None)
    } else {
        (v, None)
    }
}

/// The poll of the loop holding run token `g`: it may go on while it runs;
/// otherwise it ends, and if it is the latest loop, no loop is alive after.
pub open spec fn spec_poll(v: AkcView, g: u64) -> (AkcView, bool) {
    if runs(v, g) {
        (v, true)
    } else if g == v.generation {
        (AkcView { alive: false, ..v }, false)
    } else {
        (v, false)
    }
}

/// The selection with every entry for key `c` flipped.
pub open spec fn flipped(sel: Seq<bool>, c: char) -> Seq<bool> {
    Seq::new(sel.len(), |i: int| if catalog()[i] == c { !sel[i] } else { sel[i] })
}

/// Toggling a key of the virtual keyboard, then re-arming the start hotkey.
pub open spec fn spec_toggle_key(v: AkcView, c: char) -> (AkcView, Seq<HookCall>) {
    spec_register_start(AkcView { selection: flipped(v.selection, c), ..v }, Some(v.start))
}

/// The delay floor-clamped to its minimum.
pub open spec fn clamp_delay(d: u64) -> u64 {
    if d < MIN_DELAY_MILLIS { MIN_DELAY_MILLIS } else { d }
}

/// Setting the delay, floor-clamped, then re-arming the start hotkey so that
/// the next start uses it.
pub open spec fn spec_set_delay(v: AkcView, d: u64) -> (AkcView, Seq<HookCall>) {
    spec_register_start(AkcView { delay: clamp_delay(d), ..v }, Some(v.start))
}

/// Changing the start chord; the previous one is unregistered.
pub open spec fn spec_set_start(v: AkcView, lk: ListenKey) -> (AkcView, Seq<HookCall>) {
    if lk == v.start {
        (v, Seq::empty())
    } else {
        spec_register_start(AkcView { start: lk, ..v }, Some(v.start))
    }
}

/// Changing the stop chord; the previous one is unregistered.
pub open spec fn spec_set_stop(v: AkcView, lk: ListenKey) -> (AkcView, Seq<HookCall>) {
    if lk == v.stop {
        (v, Seq::empty())
    } else {
        spec_register_stop(AkcView { stop: lk, ..v }, Some(v.stop))
    }
}

/// The state right after construction, before any registration.
pub open spec fn initial_view() -> AkcView {
    AkcView {
        start: ListenKey { ctrl: false, alt: false, key: FunctionKey::F1 },
        stop: ListenKey { ctrl: false, alt: false, key: FunctionKey::F2 },
        delay: MIN_DELAY_MILLIS,
        selection: Seq::new(catalog().len(), |i: int| false),
        start_slot: None,
        stop_slot: None,
        active: false,
        generation: 0,
        alive: false,
    }
}

/// A fresh engine: both chords armed as far as the selection allows.
pub open spec fn spec_new() -> (AkcView, Seq<HookCall>) {
    let (v1, c1) = spec_register_start(initial_view(), None);
    let (v2, c2) = spec_register_stop(v1, None);
    (v2, c1 + c2)
}

/// A copy of a key list.
fn copy_keys(keys: &Vec<char>) -> (r: Vec<char>)
    ensures
        r@ == keys@,
{
    let mut r: Vec<char> = Vec::new();
    let mut i: usize = 0;
    while i < keys.len()
        invariant
            i <= keys@.len(),
            r@ == keys@.take(i as int),
        decreases keys@.len() - i,
    {
        r.push(keys[i]);
        i = i + 1;
        assert(r@ =~= keys@.take(i as int));
    }
    assert(keys@.take(i as int) =~= keys@);
    r
}

impl Akc {
    /// The engine's invariant, on its view.
    pub open spec fn wf(&self) -> bool {
        wf_view(self@)
    }

    /// The run-state, for display.
    pub fn is_active(&self) -> (r: bool)
        ensures
            r == self.active,
    {
        self.active
    }

    /// The poll of the loop holding run token `generation`: whether it may go
    /// on sweeping, only while the run-state is set and no later start has
    /// happened. When the latest loop is told to end, it counts as exited.
    pub fn poll(&mut self, generation: u64) -> (r: bool)
        requires
            old(self).wf(),
        ensures
            final(self)@ == spec_poll(old(self)@, generation).0,
            r == spec_poll(old(self)@, generation).1,
            final(self).wf(),
    {
        if self.active && self.generation == generation {
            true
        } else {
            if self.generation == generation {
                self.alive = false;
            }
            assert(self@ =~= spec_poll(old(self)@, generation).0);
            false
        }
    }

    /// Whether key `c` of the virtual keyboard is selected.
    pub fn is_selected(&self, c: char) -> (r: bool)
        requires
            self.wf(),
        ensures
            r == exists|i: int| 0 <= i < catalog().len() && catalog()[i] == c && self.selection@[i],
    {
        let cat = catalog_keys();
        let mut i: usize = 0;
        while i < cat.len()
            invariant
                i <= cat@.len(),
                cat@ == catalog(),
                self.selection@.len() == catalog().len(),
                forall|j: int| 0 <= j < i ==> !(catalog()[j] == c && self.selection@[j]),
            decreases cat@.len() - i,
        {
            if cat[i] == c && self.selection[i] {
                return true;
            }
            i = i + 1;
        }
        false
    }

    /// The selected keys, in the order of the virtual keyboard.
    pub fn selected_keys(&self) -> (r: Vec<char>)
        requires
            self.wf(),
        ensures
            r@ == selected_of(self.selection@),
    {
        let cat = catalog_keys();
        let mut r: Vec<char> = Vec::new();
        let mut i: usize = 0;
        while i < cat.len()
            invariant
                i <= cat@.len(),
                cat@ == catalog(),
                self.selection@.len() == catalog().len(),
                r@ == selected_prefix(self.selection@, i as nat),
            decreases cat@.len() - i,
        {
            if self.selection[i] {
                r.push(cat[i]);
            }
            i = i + 1;
        }
        r
    }

    /// Removes whatever is registered under `listen_key`.
    pub fn unregister(&mut self, listen_key: ListenKey)
        requires
            old(self).selection@.len() == catalog().len(),
            old(self).delay >= MIN_DELAY_MILLIS,
            start_slot_ok(old(self)@, Some(listen_key)),
            slots_apart(old(self)@),
            stop_slot_ok(old(self)@, Some(listen_key)),
        ensures
            final(self)@ == spec_unregister(old(self)@, listen_key),
            final(self).wf(),
    {
        let on_start = match &self.start_slot {
            Some(b) => b.hotkey == listen_key,
            None => false,
        };
        if on_start {
            self.start_slot = None;
        }
        let on_stop = match self.stop_slot {
            Some(k) => k == listen_key,
            None => false,
        };
        if on_stop {
            self.stop_slot = None;
        }
        assert(self@ =~= spec_unregister(old(self)@, listen_key));
    }

    /// Re-arms the start hotkey after a change: drops the start registration,
    /// which holds the start chord or `back`, the chord it had before; then
    /// binds the start chord to a fresh snapshot if any key is selected.
    pub fn register_start(&mut self, back: Option<ListenKey>) -> (r: Vec<HookCall>)
        requires
            old(self).selection@.len() == catalog().len(),
            old(self).delay >= MIN_DELAY_MILLIS,
            start_slot_ok(old(self)@, back),
            slots_apart(old(self)@),
            stop_slot_ok(old(self)@, None),
        ensures
            final(self)@ == spec_register_start(old(self)@, back).0,
            r@ == spec_register_start(old(self)@, back).1,
            final(self).wf(),
    {
        let mut calls: Vec<HookCall> = Vec::new();
        match &self.start_slot {
            Some(b) => calls.push(HookCall::Unregister(b.hotkey)),
            None => {},
        }
        self.start_slot = None;
        let keys = self.selected_keys();
        let stop_holds = match self.stop_slot {
            Some(k) => k == self.start,
            None => false,
        };
        if keys.len() > 0 && !stop_holds {
            self.start_slot = Some(StartBinding {
                hotkey: self.start,
                snapshot: Snapshot { keys, delay: self.delay },
            });
            calls.push(HookCall::Register(self.start));
        }
        assert(self@ =~= spec_register_start(old(self)@, back).0);
        assert(calls@ =~= spec_register_start(old(self)@, back).1);
        calls
    }

    /// Re-arms the stop hotkey after a change: drops the stop registration,
    /// which holds the stop chord or `back`, the chord it had before; then
    /// binds the stop chord.
    pub fn register_stop(&mut self, back: Option<ListenKey>) -> (r: Vec<HookCall>)
        requires
            old(self).selection@.len() == catalog().len(),
            old(self).delay >= MIN_DELAY_MILLIS,
            start_slot_ok(old(self)@, None),
            stop_slot_ok(old(self)@, back),
            slots_apart(old(self)@),
        ensures
            final(self)@ == spec_register_stop(old(self)@, back).0,
            r@ == spec_register_stop(old(self)@, back).1,
            final(self).wf(),
    {
        let mut calls: Vec<HookCall> = Vec::new();
        match self.stop_slot {
            Some(k) => calls.push(HookCall::Unregister(k)),
            None => {},
        }
        self.stop_slot = None;
        let start_holds = match &self.start_slot {
            Some(b) => b.hotkey == self.stop,
            None => false,
        };
        if !start_holds {
            self.stop_slot = Some(self.stop);
            calls.push(HookCall::Register(self.stop));
        }
        assert(self@ =~= spec_register_stop(old(self)@, back).0);
        assert(calls@ =~= spec_register_stop(old(self)@, back).1);
        calls
    }

    /// Handles a press of chord `lk` delivered by the hook. A start when idle,
    /// with the previous loop gone, sets the run-state and returns the ticket
    /// of the one loop to spawn; a start while running or while the previous
    /// loop has not yet exited, a stop while idle, or an unbound chord does
    /// nothing.
    pub fn press(&mut self, lk: ListenKey) -> (r: Option<LoopTicket>)
        requires
            old(self).wf(),
        ensures
            final(self)@ == spec_press(old(self)@, lk).0,
            ticket_view(r) == spec_press(old(self)@, lk).1,
            final(self).wf(),
    {
        let on_start = match &self.start_slot {
            Some(b) => b.hotkey == lk,
            None => false,
        };
        let on_stop = match self.stop_slot {
            Some(k) => k == lk,
            None => false,
        };
        if on_start {
            if !self.active && !self.alive && self.generation < u64::MAX {
                self.active = true;
                self.generation = self.generation + 1;
                self.alive = true;
                let r = match &self.start_slot {
                    Some(b) => Some(LoopTicket {
                        generation: self.generation,
                        keys: copy_keys(&b.snapshot.keys),
                        delay: b.snapshot.delay,
                    }),
                    None => None,
                };
                assert(self@ =~= spec_press(old(self)@, lk).0);
                r
            } else {
                None
            }
        } else if on_stop {
            self.active = false;
            assert(self@ =~= spec_press(old(self)@, lk).0);
            None
        } else {
            None
        }
    }

    /// Shutdown: clears the run-state unconditionally, so that any live loop
    /// ends at its next poll.
    pub fn on_exit(&mut self)
        requires
            old(self).wf(),
        ensures
            final(self)@ == (AkcView { active: false, ..old(self)@ }),
            final(self).wf(),
    {
        self.active = false;
        assert(self@ =~= (AkcView { active: false, ..old(self)@ }));
    }

    /// Toggles key `c` of the virtual keyboard and re-arms the start hotkey
    /// with the new selection. A key outside the keyboard changes no flag.
    pub fn toggle_key(&mut self, c: char) -> (r: Vec<HookCall>)
        requires
            old(self).wf(),
        ensures
            final(self)@ == spec_toggle_key(old(self)@, c).0,
            r@ == spec_toggle_key(old(self)@, c).1,
            final(self).wf(),
    {
        let ghost orig = self.selection@;
        let cat = catalog_keys();
        let mut i: usize = 0;
        while i < cat.len()
            invariant
                i <= cat@.len(),
                cat@ == catalog(),
                orig.len() == catalog().len(),
                self.selection@.len() == catalog().len(),
                forall|j: int| 0 <= j < i ==> self.selection@[j] == flipped(orig, c)[j],
                forall|j: int| i <= j < catalog().len() ==> self.selection@[j] == orig[j],
                self.start == old(self).start,
                self.stop == old(self).stop,
                self.delay == old(self).delay,
                self.start_slot == old(self).start_slot,
                self.stop_slot == old(self).stop_slot,
                self.active == old(self).active,
                self.generation == old(self).generation,
                self.alive == old(self).alive,
            decreases cat@.len() - i,
        {
            if cat[i] == c {
                let cur = self.selection[i];
                self.selection.set(i, !cur);
            }
            i = i + 1;
        }
        assert(self.selection@ =~= flipped(orig, c));
        assert(self@ =~= (AkcView { selection: flipped(orig, c), ..old(self)@ }));
        let back = self.start;
        self.register_start(Some(back))
    }

    /// Sets the delay, raised to the minimum when below it, and re-arms the
    /// start hotkey so that the next start uses it.
    pub fn set_delay(&mut self, delay: u64) -> (r: Vec<HookCall>)
        requires
            old(self).wf(),
        ensures
            final(self)@ == spec_set_delay(old(self)@, delay).0,
            r@ == spec_set_delay(old(self)@, delay).1,
            final(self).wf(),
    {
        self.delay = if delay < MIN_DELAY_MILLIS { MIN_DELAY_MILLIS } else { delay };
        assert(self@ =~= (AkcView { delay: clamp_delay(delay), ..old(self)@ }));
        let back = self.start;
        self.register_start(Some(back))
    }

    /// Changes the start chord; when it differs, the previous chord is
    /// unregistered and the new one armed.
    pub fn set_start(&mut self, lk: ListenKey) -> (r: Vec<HookCall>)
        requires
            old(self).wf(),
        ensures
            final(self)@ == spec_set_start(old(self)@, lk).0,
            r@ == spec_set_start(old(self)@, lk).1,
            final(self).wf(),
    {
        if lk == self.start {
            return Vec::new();
        }
        let back = self.start;
        self.start = lk;
        assert(self@ =~= (AkcView { start: lk, ..old(self)@ }));
        self.register_start(Some(back))
    }

    /// Changes the stop chord; when it differs, the previous chord is
    /// unregistered and the new one armed.
    pub fn set_stop(&mut self, lk: ListenKey) -> (r: Vec<HookCall>)
        requires
            old(self).wf(),
        ensures
            final(self)@ == spec_set_stop(old(self)@, lk).0,
            r@ == spec_set_stop(old(self)@, lk).1,
            final(self).wf(),
    {
        if lk == self.stop {
            return Vec::new();
        }
        let back = self.stop;
        self.stop = lk;
        assert(self@ =~= (AkcView { stop: lk, ..old(self)@ }));
        self.register_stop(Some(back))
    }

    /// A fresh engine: start on F1, stop on F2, the minimum delay, no key
    /// selected, idle; with the hook calls that arm it.
    pub fn new() -> (r: (Akc, Vec<HookCall>))
        ensures
            r.0@ == spec_new().0,
            r.1@ == spec_new().1,
            r.0.wf(),
    {
        let mut selection: Vec<bool> = Vec::new();
        let mut i: usize = 0;
        while i < CATALOG_LEN
            invariant
                i <= CATALOG_LEN,
                selection@ == Seq::new(i as nat, |j: int| false),
            decreases CATALOG_LEN - i,
        {
            selection.push(false);
            i = i + 1;
            assert(selection@ =~= Seq::new(i as nat, |j: int| false));
        }
        let mut akc = Akc {
            start: ListenKey::new(FunctionKey::F1),
            stop: ListenKey::new(FunctionKey::F2),
            delay: MIN_DELAY_MILLIS,
            selection,
            start_slot: None,
            stop_slot: None,
            active: false,
            generation: 0,
            alive: false,
        };
        assert(akc@ =~= initial_view());
        let mut calls = akc.register_start(None);
        let mut more = akc.register_stop(None);
        calls.append(&mut more);
        (akc, calls)
    }
}

} // verus!
