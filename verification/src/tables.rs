//! The three fixed decomposition tables and the single-character classifier.
//!
//! Each table maps a composed Vietnamese character to an ordered pair of a
//! base letter and a combining tone mark. The tone mark is always one of
//! grave (U+0300), acute (U+0301), tilde (U+0303), hook above (U+0309) or
//! dot below (U+0323); circumflex, breve and horn stay on the base letter.

use vstd::prelude::*;

verus! {

/// Whether `t` is one of the five combining tone marks that a
/// decomposition may detach.
pub open spec fn is_tone_mark(t: char) -> bool {
    t == '\u{0300}' || t == '\u{0301}' || t == '\u{0303}' || t == '\u{0309}' || t == '\u{0323}'
}

/// The Vietnamese-extension set: the 90 contiguous code points
/// 0x1EA0..=0x1EF9. These decompose regardless of the `orthographic` flag.
pub open spec fn ext_decomp(c: char) -> Option<(char, char)> {
    match c {
        '\u{1EA0}' => Some(('A', '\u{0323}')),
        '\u{1EA1}' => Some(('a', '\u{0323}')),
        '\u{1EA2}' => Some(('A', '\u{0309}')),
        '\u{1EA3}' => Some(('a', '\u{0309}')),
        '\u{1EA4}' => Some(('\u{C2}', '\u{0301}')),
        '\u{1EA5}' => Some(('\u{E2}', '\u{0301}')),
        '\u{1EA6}' => Some(('\u{C2}', '\u{0300}')),
        '\u{1EA7}' => Some(('\u{E2}', '\u{0300}')),
        '\u{1EA8}' => Some(('\u{C2}', '\u{0309}')),
        '\u{1EA9}' => Some(('\u{E2}', '\u{0309}')),
        '\u{1EAA}' => Some(('\u{C2}', '\u{0303}')),
        '\u{1EAB}' => Some(('\u{E2}', '\u{0303}')),
        '\u{1EAC}' => Some(('\u{C2}', '\u{0323}')),
        '\u{1EAD}' => Some(('\u{E2}', '\u{0323}')),
        '\u{1EAE}' => Some(('\u{102}', '\u{0301}')),
        '\u{1EAF}' => Some(('\u{103}', '\u{0301}')),
        '\u{1EB0}' => Some(('\u{102}', '\u{0300}')),
        '\u{1EB1}' => Some(('\u{103}', '\u{0300}')),
        '\u{1EB2}' => Some(('\u{102}', '\u{0309}')),
        '\u{1EB3}' => Some(('\u{103}', '\u{0309}')),
        '\u{1EB4}' => Some(('\u{102}', '\u{0303}')),
        '\u{1EB5}' => Some(('\u{103}', '\u{0303}')),
        '\u{1EB6}' => Some(('\u{102}', '\u{0323}')),
        '\u{1EB7}' => Some(('\u{103}', '\u{0323}')),
        '\u{1EB8}' => Some(('E', '\u{0323}')),
        '\u{1EB9}' => Some(('e', '\u{0323}')),
        '\u{1EBA}' => Some(('E', '\u{0309}')),
        '\u{1EBB}' => Some(('e', '\u{0309}')),
        '\u{1EBC}' => Some(('E', '\u{0303}')),
        '\u{1EBD}' => Some(('e', '\u{0303}')),
        '\u{1EBE}' => Some(('\u{CA}', '\u{0301}')),
        '\u{1EBF}' => Some(('\u{EA}', '\u{0301}')),
        '\u{1EC0}' => Some(('\u{CA}', '\u{0300}')),
        '\u{1EC1}' => Some(('\u{EA}', '\u{0300}')),
        '\u{1EC2}' => Some(('\u{CA}', '\u{0309}')),
        '\u{1EC3}' => Some(('\u{EA}', '\u{0309}')),
        '\u{1EC4}' => Some(('\u{CA}', '\u{0303}')),
        '\u{1EC5}' => Some(('\u{EA}', '\u{0303}')),
        '\u{1EC6}' => Some(('\u{CA}', '\u{0323}')),
        '\u{1EC7}' => Some(('\u{EA}', '\u{0323}')),
        '\u{1EC8}' => Some(('I', '\u{0309}')),
        '\u{1EC9}' => Some(('i', '\u{0309}')),
        '\u{1ECA}' => Some(('I', '\u{0323}')),
        '\u{1ECB}' => Some(('i', '\u{0323}')),
        '\u{1ECC}' => Some(('O', '\u{0323}')),
        '\u{1ECD}' => Some(('o', '\u{0323}')),
        '\u{1ECE}' => Some(('O', '\u{0309}')),
        '\u{1ECF}' => Some(('o', '\u{0309}')),
        '\u{1ED0}' => Some(('\u{D4}', '\u{0301}')),
        '\u{1ED1}' => Some(('\u{F4}', '\u{0301}')),
        '\u{1ED2}' => Some(('\u{D4}', '\u{0300}')),
        '\u{1ED3}' => Some(('\u{F4}', '\u{0300}')),
        '\u{1ED4}' => Some(('\u{D4}', '\u{0309}')),
        '\u{1ED5}' => Some(('\u{F4}', '\u{0309}')),
        '\u{1ED6}' => Some(('\u{D4}', '\u{0303}')),
        '\u{1ED7}' => Some(('\u{F4}', '\u{0303}')),
        '\u{1ED8}' => Some(('\u{D4}', '\u{0323}')),
        '\u{1ED9}' => Some(('\u{F4}', '\u{0323}')),
        '\u{1EDA}' => Some(('\u{1A0}', '\u{0301}')),
        '\u{1EDB}' => Some(('\u{1A1}', '\u{0301}')),
        '\u{1EDC}' => Some(('\u{1A0}', '\u{0300}')),
        '\u{1EDD}' => Some(('\u{1A1}', '\u{0300}')),
        '\u{1EDE}' => Some(('\u{1A0}', '\u{0309}')),
        '\u{1EDF}' => Some(('\u{1A1}', '\u{0309}')),
        '\u{1EE0}' => Some(('\u{1A0}', '\u{0303}')),
        '\u{1EE1}' => Some(('\u{1A1}', '\u{0303}')),
        '\u{1EE2}' => Some(('\u{1A0}', '\u{0323}')),
        '\u{1EE3}' => Some(('\u{1A1}', '\u{0323}')),
        '\u{1EE4}' => Some(('U', '\u{0323}')),
        '\u{1EE5}' => Some(('u', '\u{0323}')),
        '\u{1EE6}' => Some(('U', '\u{0309}')),
        '\u{1EE7}' => Some(('u', '\u{0309}')),
        '\u{1EE8}' => Some(('\u{1AF}', '\u{0301}')),
        '\u{1EE9}' => Some(('\u{1B0}', '\u{0301}')),
        '\u{1EEA}' => Some(('\u{1AF}', '\u{0300}')),
        '\u{1EEB}' => Some(('\u{1B0}', '\u{0300}')),
        '\u{1EEC}' => Some(('\u{1AF}', '\u{0309}')),
        '\u{1EED}' => Some(('\u{1B0}', '\u{0309}')),
        '\u{1EEE}' => Some(('\u{1AF}', '\u{0303}')),
        '\u{1EEF}' => Some(('\u{1B0}', '\u{0303}')),
        '\u{1EF0}' => Some(('\u{1AF}', '\u{0323}')),
        '\u{1EF1}' => Some(('\u{1B0}', '\u{0323}')),
        '\u{1EF2}' => Some(('Y', '\u{0300}')),
        '\u{1EF3}' => Some(('y', '\u{0300}')),
        '\u{1EF4}' => Some(('Y', '\u{0323}')),
        '\u{1EF5}' => Some(('y', '\u{0323}')),
        '\u{1EF6}' => Some(('Y', '\u{0309}')),
        '\u{1EF7}' => Some(('y', '\u{0309}')),
        '\u{1EF8}' => Some(('Y', '\u{0303}')),
        '\u{1EF9}' => Some(('y', '\u{0303}')),
        _ => None,
    }
}

/// The middle set: 14 scattered code points between 0xC3 and 0x169 whose
/// tone mark (grave, tilde, or acute for Y) has no single-code-point form
/// in windows-1258. These decompose regardless of the `orthographic` flag.
pub open spec fn middle_decomp(c: char) -> Option<(char, char)> {
    match c {
        '\u{C3}' => Some(('A', '\u{0303}')),
        '\u{CC}' => Some(('I', '\u{0300}')),
        '\u{D2}' => Some(('O', '\u{0300}')),
        '\u{D5}' => Some(('O', '\u{0303}')),
        '\u{DD}' => Some(('Y', '\u{0301}')),
        '\u{E3}' => Some(('a', '\u{0303}')),
        '\u{EC}' => Some(('i', '\u{0300}')),
        '\u{F2}' => Some(('o', '\u{0300}')),
        '\u{F5}' => Some(('o', '\u{0303}')),
        '\u{FD}' => Some(('y', '\u{0301}')),
        '\u{128}' => Some(('I', '\u{0303}')),
        '\u{129}' => Some(('i', '\u{0303}')),
        '\u{168}' => Some(('U', '\u{0303}')),
        '\u{169}' => Some(('u', '\u{0303}')),
        _ => None,
    }
}

/// The windows-1258-representable set: 16 code points in 0xC0..=0xFA that
/// the windows-1258 encoding can hold precomposed. These decompose only
/// when `orthographic` is `true`.
pub open spec fn win1258_decomp(c: char) -> Option<(char, char)> {
    match c {
        '\u{C0}' => Some(('A', '\u{0300}')),
        '\u{C1}' => Some(('A', '\u{0301}')),
        '\u{C8}' => Some(('E', '\u{0300}')),
        '\u{C9}' => Some(('E', '\u{0301}')),
        '\u{CD}' => Some(('I', '\u{0301}')),
        '\u{D3}' => Some(('O', '\u{0301}')),
        '\u{D9}' => Some(('U', '\u{0300}')),
        '\u{DA}' => Some(('U', '\u{0301}')),
        '\u{E0}' => Some(('a', '\u{0300}')),
        '\u{E1}' => Some(('a', '\u{0301}')),
        '\u{E8}' => Some(('e', '\u{0300}')),
        '\u{E9}' => Some(('e', '\u{0301}')),
        '\u{ED}' => Some(('i', '\u{0301}')),
        '\u{F3}' => Some(('o', '\u{0301}')),
        '\u{F9}' => Some(('u', '\u{0300}')),
        '\u{FA}' => Some(('u', '\u{0301}')),
        _ => None,
    }
}

/// How one composed character decomposes, if at all: the extension set is
/// tried first, then the middle set, and — only in orthographic mode — the
/// windows-1258 set. `None` means the character passes through unchanged.
pub open spec fn decomp(c: char, orthographic: bool) -> Option<(char, char)> {
    if ext_decomp(c) is Some {
        ext_decomp(c)
    } else if middle_decomp(c) is Some {
        middle_decomp(c)
    } else if orthographic {
        win1258_decomp(c)
    } else {
        None
    }
}

/// Looks `c` up in the Vietnamese-extension set.
fn ext_lookup(c: char) -> (r: Option<(char, char)>)
    ensures
        r == ext_decomp(c),
{
    match c {
        '\u{1EA0}' => Some(('A', '\u{0323}')),
        '\u{1EA1}' => Some(('a', '\u{0323}')),
        '\u{1EA2}' => Some(('A', '\u{0309}')),
        '\u{1EA3}' => Some(('a', '\u{0309}')),
        '\u{1EA4}' => Some(('\u{C2}', '\u{0301}')),
        '\u{1EA5}' => Some(('\u{E2}', '\u{0301}')),
        '\u{1EA6}' => Some(('\u{C2}', '\u{0300}')),
        '\u{1EA7}' => Some(('\u{E2}', '\u{0300}')),
        '\u{1EA8}' => Some(('\u{C2}', '\u{0309}')),
        '\u{1EA9}' => Some(('\u{E2}', '\u{0309}')),
        '\u{1EAA}' => Some(('\u{C2}', '\u{0303}')),
        '\u{1EAB}' => Some(('\u{E2}', '\u{0303}')),
        '\u{1EAC}' => Some(('\u{C2}', '\u{0323}')),
        '\u{1EAD}' => Some(('\u{E2}', '\u{0323}')),
        '\u{1EAE}' => Some(('\u{102}', '\u{0301}')),
        '\u{1EAF}' => Some(('\u{103}', '\u{0301}')),
        '\u{1EB0}' => Some(('\u{102}', '\u{0300}')),
        '\u{1EB1}' => Some(('\u{103}', '\u{0300}')),
        '\u{1EB2}' => Some(('\u{102}', '\u{0309}')),
        '\u{1EB3}' => Some(('\u{103}', '\u{0309}')),
        '\u{1EB4}' => Some(('\u{102}', '\u{0303}')),
        '\u{1EB5}' => Some(('\u{103}', '\u{0303}')),
        '\u{1EB6}' => Some(('\u{102}', '\u{0323}')),
        '\u{1EB7}' => Some(('\u{103}', '\u{0323}')),
        '\u{1EB8}' => Some(('E', '\u{0323}')),
        '\u{1EB9}' => Some(('e', '\u{0323}')),
        '\u{1EBA}' => Some(('E', '\u{0309}')),
        '\u{1EBB}' => Some(('e', '\u{0309}')),
        '\u{1EBC}' => Some(('E', '\u{0303}')),
        '\u{1EBD}' => Some(('e', '\u{0303}')),
        '\u{1EBE}' => Some(('\u{CA}', '\u{0301}')),
        '\u{1EBF}' => Some(('\u{EA}', '\u{0301}')),
        '\u{1EC0}' => Some(('\u{CA}', '\u{0300}')),
        '\u{1EC1}' => Some(('\u{EA}', '\u{0300}')),
        '\u{1EC2}' => Some(('\u{CA}', '\u{0309}')),
        '\u{1EC3}' => Some(('\u{EA}', '\u{0309}')),
        '\u{1EC4}' => Some(('\u{CA}', '\u{0303}')),
        '\u{1EC5}' => Some(('\u{EA}', '\u{0303}')),
        '\u{1EC6}' => Some(('\u{CA}', '\u{0323}')),
        '\u{1EC7}' => Some(('\u{EA}', '\u{0323}')),
        '\u{1EC8}' => Some(('I', '\u{0309}')),
        '\u{1EC9}' => Some(('i', '\u{0309}')),
        '\u{1ECA}' => Some(('I', '\u{0323}')),
        '\u{1ECB}' => Some(('i', '\u{0323}')),
        '\u{1ECC}' => Some(('O', '\u{0323}')),
        '\u{1ECD}' => Some(('o', '\u{0323}')),
        '\u{1ECE}' => Some(('O', '\u{0309}')),
        '\u{1ECF}' => Some(('o', '\u{0309}')),
        '\u{1ED0}' => Some(('\u{D4}', '\u{0301}')),
        '\u{1ED1}' => Some(('\u{F4}', '\u{0301}')),
        '\u{1ED2}' => Some(('\u{D4}', '\u{0300}')),
        '\u{1ED3}' => Some(('\u{F4}', '\u{0300}')),
        '\u{1ED4}' => Some(('\u{D4}', '\u{0309}')),
        '\u{1ED5}' => Some(('\u{F4}', '\u{0309}')),
        '\u{1ED6}' => Some(('\u{D4}', '\u{0303}')),
        '\u{1ED7}' => Some(('\u{F4}', '\u{0303}')),
        '\u{1ED8}' => Some(('\u{D4}', '\u{0323}')),
        '\u{1ED9}' => Some(('\u{F4}', '\u{0323}')),
        '\u{1EDA}' => Some(('\u{1A0}', '\u{0301}')),
        '\u{1EDB}' => Some(('\u{1A1}', '\u{0301}')),
        '\u{1EDC}' => Some(('\u{1A0}', '\u{0300}')),
        '\u{1EDD}' => Some(('\u{1A1}', '\u{0300}')),
        '\u{1EDE}' => Some(('\u{1A0}', '\u{0309}')),
        '\u{1EDF}' => Some(('\u{1A1}', '\u{0309}')),
        '\u{1EE0}' => Some(('\u{1A0}', '\u{0303}')),
        '\u{1EE1}' => Some(('\u{1A1}', '\u{0303}')),
        '\u{1EE2}' => Some(('\u{1A0}', '\u{0323}')),
        '\u{1EE3}' => Some(('\u{1A1}', '\u{0323}')),
        '\u{1EE4}' => Some(('U', '\u{0323}')),
        '\u{1EE5}' => Some(('u', '\u{0323}')),
        '\u{1EE6}' => Some(('U', '\u{0309}')),
        '\u{1EE7}' => Some(('u', '\u{0309}')),
        '\u{1EE8}' => Some(('\u{1AF}', '\u{0301}')),
        '\u{1EE9}' => Some(('\u{1B0}', '\u{0301}')),
        '\u{1EEA}' => Some(('\u{1AF}', '\u{0300}')),
        '\u{1EEB}' => Some(('\u{1B0}', '\u{0300}')),
        '\u{1EEC}' => Some(('\u{1AF}', '\u{0309}')),
        '\u{1EED}' => Some(('\u{1B0}', '\u{0309}')),
        '\u{1EEE}' => Some(('\u{1AF}', '\u{0303}')),
        '\u{1EEF}' => Some(('\u{1B0}', '\u{0303}')),
        '\u{1EF0}' => Some(('\u{1AF}', '\u{0323}')),
        '\u{1EF1}' => Some(('\u{1B0}', '\u{0323}')),
        '\u{1EF2}' => Some(('Y', '\u{0300}')),
        '\u{1EF3}' => Some(('y', '\u{0300}')),
        '\u{1EF4}' => Some(('Y', '\u{0323}')),
        '\u{1EF5}' => Some(('y', '\u{0323}')),
        '\u{1EF6}' => Some(('Y', '\u{0309}')),
        '\u{1EF7}' => Some(('y', '\u{0309}')),
        '\u{1EF8}' => Some(('Y', '\u{0303}')),
        '\u{1EF9}' => Some(('y', '\u{0303}')),
        _ => None,
    }
}

/// Looks `c` up in the middle set.
fn middle_lookup(c: char) -> (r: Option<(char, char)>)
    ensures
        r == middle_decomp(c),
{
    match c {
        '\u{C3}' => Some(('A', '\u{0303}')),
        '\u{CC}' => Some(('I', '\u{0300}')),
        '\u{D2}' => Some(('O', '\u{0300}')),
        '\u{D5}' => Some(('O', '\u{0303}')),
        '\u{DD}' => Some(('Y', '\u{0301}')),
        '\u{E3}' => Some(('a', '\u{0303}')),
        '\u{EC}' => Some(('i', '\u{0300}')),
        '\u{F2}' => Some(('o', '\u{0300}')),
        '\u{F5}' => Some(('o', '\u{0303}')),
        '\u{FD}' => Some(('y', '\u{0301}')),
        '\u{128}' => Some(('I', '\u{0303}')),
        '\u{129}' => Some(('i', '\u{0303}')),
        '\u{168}' => Some(('U', '\u{0303}')),
        '\u{169}' => Some(('u', '\u{0303}')),
        _ => None,
    }
}

/// Looks `c` up in the windows-1258-representable set.
fn win1258_lookup(c: char) -> (r: Option<(char, char)>)
    ensures
        r == win1258_decomp(c),
{
    match c {
        '\u{C0}' => Some(('A', '\u{0300}')),
        '\u{C1}' => Some(('A', '\u{0301}')),
        '\u{C8}' => Some(('E', '\u{0300}')),
        '\u{C9}' => Some(('E', '\u{0301}')),
        '\u{CD}' => Some(('I', '\u{0301}')),
        '\u{D3}' => Some(('O', '\u{0301}')),
        '\u{D9}' => Some(('U', '\u{0300}')),
        '\u{DA}' => Some(('U', '\u{0301}')),
        '\u{E0}' => Some(('a', '\u{0300}')),
        '\u{E1}' => Some(('a', '\u{0301}')),
        '\u{E8}' => Some(('e', '\u{0300}')),
        '\u{E9}' => Some(('e', '\u{0301}')),
        '\u{ED}' => Some(('i', '\u{0301}')),
        '\u{F3}' => Some(('o', '\u{0301}')),
        '\u{F9}' => Some(('u', '\u{0300}')),
        '\u{FA}' => Some(('u', '\u{0301}')),
        _ => None,
    }
}

/// Classifies one character: the (base, tone mark) pair it decomposes
/// into under the given mode, or `None` when it passes through unchanged.
pub fn decompose_char(c: char, orthographic: bool) -> (r: Option<(char, char)>)
    ensures
        r == decomp(c, orthographic),
{
    if let Some(pair) = ext_lookup(c) {
        Some(pair)
    } else if let Some(pair) = middle_lookup(c) {
        Some(pair)
    } else if orthographic {
        win1258_lookup(c)
    } else {
        None
    }
}

/// Every character that decomposes with the windows-1258 set left out
/// decomposes identically with it included: lowering `orthographic` never
/// changes a decomposition, it only suppresses some.
pub proof fn lemma_decomposition_monotonic(c: char)
    ensures
        decomp(c, false) is Some ==> decomp(c, true) == decomp(c, false),
{
}

/// Every decomposition yields a base letter followed by exactly one of the
/// five combining tone marks; the base itself is never a tone mark.
pub proof fn lemma_one_tone_mark(c: char, orthographic: bool)
    ensures
        decomp(c, orthographic) matches Some((b, t)) ==> is_tone_mark(t) && !is_tone_mark(b),
{
}

} // verus!
