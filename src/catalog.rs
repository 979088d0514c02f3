//! The closed alphabet of keys that can be selected for simulation, and the
//! lookup from a key identifier to the key that the input simulator presses.

use vstd::prelude::*;

verus! {

/// Number of keys on the virtual keyboard.
pub const CATALOG_LEN: usize = 36;

/// A key that the input simulator can press.
#[derive(Clone, Copy, Debug, PartialEq, Eq, Structural)]
pub enum SimKey {
    Num0,
    Num1,
    Num2,
    Num3,
    Num4,
    Num5,
    Num6,
    Num7,
    Num8,
    Num9,
    KeyQ,
    KeyW,
    KeyE,
    KeyR,
    KeyT,
    KeyY,
    KeyU,
    KeyI,
    KeyO,
    KeyP,
    KeyA,
    KeyS,
    KeyD,
    KeyF,
    KeyG,
    KeyH,
    KeyJ,
    KeyK,
    KeyL,
    KeyZ,
    KeyX,
    KeyC,
    KeyV,
    KeyB,
    KeyN,
    KeyM,
}

/// The virtual keyboard, row by row: digits, then the three letter rows.
pub open spec fn catalog() -> Seq<char> {
    seq![
        '1', '2', '3', '4', '5', '6', '7', '8', '9', '0',
        'Q', 'W', 'E', 'R', 'T', 'Y', 'U', 'I', 'O', 'P',
        'A', 'S', 'D', 'F', 'G', 'H', 'J', 'K', 'L',
        'Z', 'X', 'C', 'V', 'B', 'N', 'M',
    ]
}

/// The key that the simulator presses for a key identifier, if it has one.
pub open spec fn spec_lookup(k: char) -> Option<SimKey> {
    match k {
        '0' => Some(SimKey::Num0),
        '1' => Some(SimKey::Num1),
        '2' => Some(SimKey::Num2),
        '3' => Some(SimKey::Num3),
        '4' => Some(SimKey::Num4),
        '5' => Some(SimKey::Num5),
        '6' => Some(SimKey::Num6),
        '7' => Some(SimKey::Num7),
        '8' => Some(SimKey::Num8),
        '9' => Some(SimKey::Num9),
        'Q' => Some(SimKey::KeyQ),
        'W' => Some(SimKey::KeyW),
        'E' => Some(SimKey::KeyE),
        'R' => Some(SimKey::KeyR),
        'T' => Some(SimKey::KeyT),
        'Y' => Some(SimKey::KeyY),
        'U' => Some(SimKey::KeyU),
        'I' => Some(SimKey::KeyI),
        'O' => Some(SimKey::KeyO),
        'P' => Some(SimKey::KeyP),
        'A' => Some(SimKey::KeyA),
        'S' => Some(SimKey::KeyS),
        'D' => Some(SimKey::KeyD),
        'F' => Some(SimKey::KeyF),
        'G' => Some(SimKey::KeyG),
        'H' => Some(SimKey::KeyH),
        'J' => Some(SimKey::KeyJ),
        'K' => Some(SimKey::KeyK),
        'L' => Some(SimKey::KeyL),
        'Z' => Some(SimKey::KeyZ),
        'X' => Some(SimKey::KeyX),
        'C' => Some(SimKey::KeyC),
        'V' => Some(SimKey::KeyV),
        'B' => Some(SimKey::KeyB),
        'N' => Some(SimKey::KeyN),
        'M' => Some(SimKey::KeyM),
        _ => None,
    }
}

/// The keys of the virtual keyboard, in row order.
pub fn catalog_keys() -> (r: Vec<char>)
    ensures
        r@ == catalog(),
{
    let r = vec![
        '1', '2', '3', '4', '5', '6', '7', '8', '9', '0',
        'Q', 'W', 'E', 'R', 'T', 'Y', 'U', 'I', 'O', 'P',
        'A', 'S', 'D', 'F', 'G', 'H', 'J', 'K', 'L',
        'Z', 'X', 'C', 'V', 'B', 'N', 'M',
    ];
    assert(r@ =~= catalog());
    r
}

/// Resolves a key identifier to the key to simulate; `None` outside the
/// alphabet, so that such a key is skipped rather than pressed.
pub fn get_rdev_key(k: char) -> (r: Option<SimKey>)
    ensures
        r == spec_lookup(k),
{
    match k {
        '0' => Some(SimKey::Num0),
        '1' => Some(SimKey::Num1),
        '2' => Some(SimKey::Num2),
        '3' => Some(SimKey::Num3),
        '4' => Some(SimKey::Num4),
        '5' => Some(SimKey::Num5),
        '6' => Some(SimKey::Num6),
        '7' => Some(SimKey::Num7),
        '8' => Some(SimKey::Num8),
        '9' => Some(SimKey::Num9),
        'Q' => Some(SimKey::KeyQ),
        'W' => Some(SimKey::KeyW),
        'E' => Some(SimKey::KeyE),
        'R' => Some(SimKey::KeyR),
        'T' => Some(SimKey::KeyT),
        'Y' => Some(SimKey::KeyY),
        'U' => Some(SimKey::KeyU),
        'I' => Some(SimKey::KeyI),
        'O' => Some(SimKey::KeyO),
        'P' => Some(SimKey::KeyP),
        'A' => Some(SimKey::KeyA),
        'S' => Some(SimKey::KeyS),
        'D' => Some(SimKey::KeyD),
        'F' => Some(SimKey::KeyF),
        'G' => Some(SimKey::KeyG),
        'H' => Some(SimKey::KeyH),
        'J' => Some(SimKey::KeyJ),
        'K' => Some(SimKey::KeyK),
        'L' => Some(SimKey::KeyL),
        'Z' => Some(SimKey::KeyZ),
        'X' => Some(SimKey::KeyX),
        'C' => Some(SimKey::KeyC),
        'V' => Some(SimKey::KeyV),
        'B' => Some(SimKey::KeyB),
        'N' => Some(SimKey::KeyN),
        'M' => Some(SimKey::KeyM),
        _ => None,
    }
}

/// The keys pressed by one sweep over `keys`: each in turn, skipping those
/// that have no simulated key.
pub open spec fn sweep_of(keys: Seq<char>) -> Seq<SimKey>
    decreases keys.len(),
{
    if keys.len() == 0 {
        Seq::empty()
    } else {
        let rest = sweep_of(keys.drop_last());
        match spec_lookup(keys.last()) {
            Some(s) => rest.push(s),
            None => rest,
        }
    }
}

/// The keys to press, in order, for one sweep over a snapshot of selected keys.
pub fn sweep_keys(keys: &Vec<char>) -> (r: Vec<SimKey>)
    ensures
        r@ == sweep_of(keys@),
{
    let mut r: Vec<SimKey> = Vec::new();
    let mut i: usize = 0;
    while i < keys.len()
        invariant
            i <= keys@.len(),
            r@ == sweep_of(keys@.take(i as int)),
        decreases keys@.len() - i,
    {
        let k = keys[i];
        assert(keys@.take(i as int + 1).drop_last() =~= keys@.take(i as int));
        match get_rdev_key(k) {
            Some(s) => r.push(s),
            None => {},
        }
        i = i + 1;
    }
    assert(keys@.take(i as int) =~= keys@);
    r
}

} // verus!
