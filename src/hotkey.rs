//! Hotkey descriptors: a chord of optional modifiers and a function key, its
//! canonical text, and its conversion to the hook's hotkey type.

use vstd::prelude::*;
use vstd::string::StringExecFns;
use livesplit_hotkey::Hotkey;
use std::str::FromStr;

verus! {

#[verifier::external_type_specification]
#[verifier::external_body]
pub struct ExHotkey(Hotkey);

/// A function key that can serve as the base of a hotkey chord.
#[derive(Clone, Copy, Debug, PartialEq, Eq, Structural)]
pub enum FunctionKey {
    F1,
    F2,
    F3,
    F4,
    F5,
    F6,
    F7,
    F8,
    F9,
    F10,
    F11,
    F12,
}

/// The textual name of a function key.
pub open spec fn key_name(k: FunctionKey) -> Seq<char> {
    match k {
        FunctionKey::F1 => "F1"@,
        FunctionKey::F2 => "F2"@,
        FunctionKey::F3 => "F3"@,
        FunctionKey::F4 => "F4"@,
        FunctionKey::F5 => "F5"@,
        FunctionKey::F6 => "F6"@,
        FunctionKey::F7 => "F7"@,
        FunctionKey::F8 => "F8"@,
        FunctionKey::F9 => "F9"@,
        FunctionKey::F10 => "F10"@,
        FunctionKey::F11 => "F11"@,
        FunctionKey::F12 => "F12"@,
    }
}

impl FunctionKey {
    /// The textual name of this key, as the hook's key codes spell it.
    pub fn name(&self) -> (r: &'static str)
        ensures
            r@ == key_name(*self),
    {
        match self {
            FunctionKey::F1 => "F1",
            FunctionKey::F2 => "F2",
            FunctionKey::F3 => "F3",
            FunctionKey::F4 => "F4",
            FunctionKey::F5 => "F5",
            FunctionKey::F6 => "F6",
            FunctionKey::F7 => "F7",
            FunctionKey::F8 => "F8",
            FunctionKey::F9 => "F9",
            FunctionKey::F10 => "F10",
            FunctionKey::F11 => "F11",
            FunctionKey::F12 => "F12",
        }
    }
}

/// A hotkey chord: optional Ctrl and Alt modifiers plus a base key. Two chords
/// are equal exactly when all three fields are.
#[derive(Clone, Copy, Debug, PartialEq, Eq, Structural)]
pub struct ListenKey {
    pub ctrl: bool,
    pub alt: bool,
    pub key: FunctionKey,
}

/// Why a chord could not be turned into a hook hotkey.
#[derive(Clone, Copy, Debug, PartialEq, Eq, Structural)]
pub enum ConversionError {
    /// The hook's parser rejected the chord's canonical text.
    Unparsable,
}

/// Canonical text of a chord: Ctrl, then Alt, then the base key, each
/// modifier followed by the separator.
pub open spec fn chord_text(lk: ListenKey) -> Seq<char> {
    (if lk.ctrl { "Ctrl+"@ } else { Seq::empty() })
        + (if lk.alt { "Alt+"@ } else { Seq::empty() })
        + key_name(lk.key)
}

/// What the hook's hotkey parser makes of a text.
pub uninterp spec fn parsed_hotkey(s: Seq<char>) -> Result<Hotkey, ()>;

/// Relies on `<livesplit_hotkey::Hotkey as FromStr>::from_str`: it splits at
/// the last `+`, reads the part before as `+`-separated modifier names
/// ("Ctrl", "Alt", ...) and the part after as a key-code name, which
/// includes F1 to F12; a text without `+` is a key-code name alone. So the
/// canonical text of every chord parses. The result depends on the text
/// alone.
#[verifier::external_body]
fn parse_hotkey(s: &str) -> (r: Result<Hotkey, ()>)
    ensures
        r == parsed_hotkey(s@),
        (exists|lk: ListenKey| s@ == chord_text(lk)) ==> r is Ok,
{
    Hotkey::from_str(s)
}

impl ListenKey {
    /// A chord of `key` alone, without modifiers.
    pub fn new(key: FunctionKey) -> (r: ListenKey)
        ensures
            r == (ListenKey { ctrl: false, alt: false, key }),
    {
        ListenKey { ctrl: false, alt: false, key }
    }

    /// The canonical text of this chord.
    pub fn hotkey_text(&self) -> (r: String)
        ensures
            r@ == chord_text(*self),
    {
        let mut value = String::new();
        if self.ctrl {
            value.append("Ctrl+");
        }
        if self.alt {
            value.append("Alt+");
        }
        value.append(self.key.name());
        proof {
            reveal_strlit("Ctrl+");
            reveal_strlit("Alt+");
        }
        assert(value@ =~= chord_text(*self));
        value
    }

    /// The hook's hotkey for this chord: the parse of its canonical text,
    /// which every chord has.
    pub fn to_hotkey(&self) -> (r: Result<Hotkey, ConversionError>)
        ensures
            r is Ok,
            parsed_hotkey(chord_text(*self)) == Ok::<Hotkey, ()>(r->Ok_0),
    {
        let text = self.hotkey_text();
        match parse_hotkey(text.as_str()) {
            Ok(h) => Ok(h),
            Err(_) => Err(ConversionError::Unparsable),
        }
    }
}

} // verus!
