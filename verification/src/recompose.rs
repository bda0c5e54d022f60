//! Recomposition: collapsing decomposed base-plus-tone-mark pairs back
//! into their composed characters, and the proof that decomposition
//! followed by recomposition reproduces the input.

use vstd::prelude::*;
use crate::tables::decomp;
use crate::tables::is_tone_mark;
use crate::tables::lemma_one_tone_mark;
use crate::transform::decompose_seq;

verus! {

/// The composed character whose decomposition (under the orthographic
/// mode, where every table is in effect) is exactly `(b, t)`, if one
/// exists. This is the inverse of the three decomposition tables: each of
/// the 24 base letters pairs with each of the five tone marks exactly once.
pub open spec fn compose_char(b: char, t: char) -> Option<char> {
    match b {
        'A' => match t {
            '\u{0300}' => Some('\u{C0}'),
            '\u{0301}' => Some('\u{C1}'),
            '\u{0303}' => Some('\u{C3}'),
            '\u{0309}' => Some('\u{1EA2}'),
            '\u{0323}' => Some('\u{1EA0}'),
            _ => None,
        },
        'a' => match t {
            '\u{0300}' => Some('\u{E0}'),
            '\u{0301}' => Some('\u{E1}'),
            '\u{0303}' => Some('\u{E3}'),
            '\u{0309}' => Some('\u{1EA3}'),
            '\u{0323}' => Some('\u{1EA1}'),
            _ => None,
        },
        '\u{102}' => match t {
            '\u{0300}' => Some('\u{1EB0}'),
            '\u{0301}' => Some('\u{1EAE}'),
            '\u{0303}' => Some('\u{1EB4}'),
            '\u{0309}' => Some('\u{1EB2}'),
            '\u{0323}' => Some('\u{1EB6}'),
            _ => None,
        },
        '\u{103}' => match t {
            '\u{0300}' => Some('\u{1EB1}'),
            '\u{0301}' => Some('\u{1EAF}'),
            '\u{0303}' => Some('\u{1EB5}'),
            '\u{0309}' => Some('\u{1EB3}'),
            '\u{0323}' => Some('\u{1EB7}'),
            _ => None,
        },
        '\u{C2}' => match t {
            '\u{0300}' => Some('\u{1EA6}'),
            '\u{0301}' => Some('\u{1EA4}'),
            '\u{0303}' => Some('\u{1EAA}'),
            '\u{0309}' => Some('\u{1EA8}'),
            '\u{0323}' => Some('\u{1EAC}'),
            _ => None,
        },
        '\u{E2}' => match t {
            '\u{0300}' => Some('\u{1EA7}'),
            '\u{0301}' => Some('\u{1EA5}'),
            '\u{0303}' => Some('\u{1EAB}'),
            '\u{0309}' => Some('\u{1EA9}'),
            '\u{0323}' => Some('\u{1EAD}'),
            _ => None,
        },
        'E' => match t {
            '\u{0300}' => Some('\u{C8}'),
            '\u{0301}' => Some('\u{C9}'),
            '\u{0303}' => Some('\u{1EBC}'),
            '\u{0309}' => Some('\u{1EBA}'),
            '\u{0323}' => Some('\u{1EB8}'),
            _ => None,
        },
        'e' => match t {
            '\u{0300}' => Some('\u{E8}'),
            '\u{0301}' => Some('\u{E9}'),
            '\u{0303}' => Some('\u{1EBD}'),
            '\u{0309}' => Some('\u{1EBB}'),
            '\u{0323}' => Some('\u{1EB9}'),
            _ => None,
        },
        '\u{CA}' => match t {
            '\u{0300}' => Some('\u{1EC0}'),
            '\u{0301}' => Some('\u{1EBE}'),
            '\u{0303}' => Some('\u{1EC4}'),
            '\u{0309}' => Some('\u{1EC2}'),
            '\u{0323}' => Some('\u{1EC6}'),
            _ => None,
        },
        '\u{EA}' => match t {
            '\u{0300}' => Some('\u{1EC1}'),
            '\u{0301}' => Some('\u{1EBF}'),
            '\u{0303}' => Some('\u{1EC5}'),
            '\u{0309}' => Some('\u{1EC3}'),
            '\u{0323}' => Some('\u{1EC7}'),
            _ => None,
        },
        'I' => match t {
            '\u{0300}' => Some('\u{CC}'),
            '\u{0301}' => Some('\u{CD}'),
            '\u{0303}' => Some('\u{128}'),
            '\u{0309}' => Some('\u{1EC8}'),
            '\u{0323}' => Some('\u{1ECA}'),
            _ => None,
        },
        'i' => match t {
            '\u{0300}' => Some('\u{EC}'),
            '\u{0301}' => Some('\u{ED}'),
            '\u{0303}' => Some('\u{129}'),
            '\u{0309}' => Some('\u{1EC9}'),
            '\u{0323}' => Some('\u{1ECB}'),
            _ => None,
        },
        'O' => match t {
            '\u{0300}' => Some('\u{D2}'),
            '\u{0301}' => Some('\u{D3}'),
            '\u{0303}' => Some('\u{D5}'),
            '\u{0309}' => Some('\u{1ECE}'),
            '\u{0323}' => Some('\u{1ECC}'),
            _ => None,
        },
        'o' => match t {
            '\u{0300}' => Some('\u{F2}'),
            '\u{0301}' => Some('\u{F3}'),
            '\u{0303}' => Some('\u{F5}'),
            '\u{0309}' => Some('\u{1ECF}'),
            '\u{0323}' => Some('\u{1ECD}'),
            _ => None,
        },
        '\u{D4}' => match t {
            '\u{0300}' => Some('\u{1ED2}'),
            '\u{0301}' => Some('\u{1ED0}'),
            '\u{0303}' => Some('\u{1ED6}'),
            '\u{0309}' => Some('\u{1ED4}'),
            '\u{0323}' => Some('\u{1ED8}'),
            _ => None,
        },
        '\u{F4}' => match t {
            '\u{0300}' => Some('\u{1ED3}'),
            '\u{0301}' => Some('\u{1ED1}'),
            '\u{0303}' => Some('\u{1ED7}'),
            '\u{0309}' => Some('\u{1ED5}'),
            '\u{0323}' => Some('\u{1ED9}'),
            _ => None,
        },
        '\u{1A0}' => match t {
            '\u{0300}' => Some('\u{1EDC}'),
            '\u{0301}' => Some('\u{1EDA}'),
            '\u{0303}' => Some('\u{1EE0}'),
            '\u{0309}' => Some('\u{1EDE}'),
            '\u{0323}' => Some('\u{1EE2}'),
            _ => None,
        },
        '\u{1A1}' => match t {
            '\u{0300}' => Some('\u{1EDD}'),
            '\u{0301}' => Some('\u{1EDB}'),
            '\u{0303}' => Some('\u{1EE1}'),
            '\u{0309}' => Some('\u{1EDF}'),
            '\u{0323}' => Some('\u{1EE3}'),
            _ => None,
        },
        'U' => match t {
            '\u{0300}' => Some('\u{D9}'),
            '\u{0301}' => Some('\u{DA}'),
            '\u{0303}' => Some('\u{168}'),
            '\u{0309}' => Some('\u{1EE6}'),
            '\u{0323}' => Some('\u{1EE4}'),
            _ => None,
        },
        'u' => match t {
            '\u{0300}' => Some('\u{F9}'),
            '\u{0301}' => Some('\u{FA}'),
            '\u{0303}' => Some('\u{169}'),
            '\u{0309}' => Some('\u{1EE7}'),
            '\u{0323}' => Some('\u{1EE5}'),
            _ => None,
        },
        '\u{1AF}' => match t {
            '\u{0300}' => Some('\u{1EEA}'),
            '\u{0301}' => Some('\u{1EE8}'),
            '\u{0303}' => Some('\u{1EEE}'),
            '\u{0309}' => Some('\u{1EEC}'),
            '\u{0323}' => Some('\u{1EF0}'),
            _ => None,
        },
        '\u{1B0}' => match t {
            '\u{0300}' => Some('\u{1EEB}'),
            '\u{0301}' => Some('\u{1EE9}'),
            '\u{0303}' => Some('\u{1EEF}'),
            '\u{0309}' => Some('\u{1EED}'),
            '\u{0323}' => Some('\u{1EF1}'),
            _ => None,
        },
        'Y' => match t {
            '\u{0300}' => Some('\u{1EF2}'),
            '\u{0301}' => Some('\u{DD}'),
            '\u{0303}' => Some('\u{1EF8}'),
            '\u{0309}' => Some('\u{1EF6}'),
            '\u{0323}' => Some('\u{1EF4}'),
            _ => None,
        },
        'y' => match t {
            '\u{0300}' => Some('\u{1EF3}'),
            '\u{0301}' => Some('\u{FD}'),
            '\u{0303}' => Some('\u{1EF9}'),
            '\u{0309}' => Some('\u{1EF7}'),
            '\u{0323}' => Some('\u{1EF5}'),
            _ => None,
        },
        _ => None,
    }
}

/// The composed form of `(b, t)` where a table match exists under the
/// given mode: in non-orthographic mode a windows-1258-representable pair
/// does not collapse, since it was never decomposed.
pub open spec fn recompose_pair(b: char, t: char, orthographic: bool) -> Option<char> {
    match compose_char(b, t) {
        Some(c) => if decomp(c, orthographic) == Some((b, t)) {
            Some(c)
        } else {
            None
        },
        None => None,
    }
}

/// Collapses every decomposed pair of `s` back into its composed form,
/// left to right, leaving all other characters in place.
pub open spec fn recompose_seq(s: Seq<char>, orthographic: bool) -> Seq<char>
    decreases s.len(),
{
    if s.len() == 0 {
        Seq::empty()
    } else if s.len() == 1 {
        seq![s[0]]
    } else {
        match recompose_pair(s[0], s[1], orthographic) {
            Some(c) => seq![c] + recompose_seq(s.skip(2), orthographic),
            None => seq![s[0]] + recompose_seq(s.skip(1), orthographic),
        }
    }
}

/// `compose_char` inverts the decomposition tables: whatever pair a
/// character decomposes into composes back to that very character.
pub proof fn lemma_compose_inverts(c: char, orthographic: bool)
    ensures
        decomp(c, orthographic) matches Some((b, t)) ==> compose_char(b, t) == Some(c),
{
}

/// Only the five combining tone marks ever compose onto a base letter.
pub proof fn lemma_compose_needs_tone_mark(b: char, t: char)
    ensures
        !is_tone_mark(t) ==> compose_char(b, t) is None,
{
}

/// Order preservation, as a round trip: collapsing the decomposed pairs
/// of the output back into their composed forms reproduces the input
/// character for character. The precondition rules out inputs that
/// already contain a decomposed pair — those are not in composed
/// normalization form, and collapsing would merge them.
pub proof fn lemma_round_trip(s: Seq<char>, orthographic: bool)
    requires
        forall|i: int|
            0 <= i && i + 1 < s.len() ==> (#[trigger] recompose_pair(
                s[i],
                s[i + 1],
                orthographic,
            )) is None,
    ensures
        recompose_seq(decompose_seq(s, orthographic), orthographic) == s,
    decreases s.len(),
{
    if s.len() == 0 {
        assert(recompose_seq(decompose_seq(s, orthographic), orthographic) =~= s);
    } else {
        let rest = s.drop_first();
        assert forall|i: int|
            0 <= i && i + 1 < rest.len() implies (#[trigger] recompose_pair(
            rest[i],
            rest[i + 1],
            orthographic,
        )) is None by {
            assert(rest[i] == s[i + 1]);
            assert(rest[i + 1] == s[i + 2]);
        }
        lemma_round_trip(rest, orthographic);
        let tail = decompose_seq(rest, orthographic);
        let out = decompose_seq(s, orthographic);
        match decomp(s[0], orthographic) {
            Some((b, t)) => {
                assert(out =~= seq![b, t] + tail);
                lemma_compose_inverts(s[0], orthographic);
                assert(recompose_pair(b, t, orthographic) == Some(s[0]));
                assert(out.skip(2) =~= tail);
                assert(recompose_seq(out, orthographic) == seq![s[0]] + recompose_seq(
                    tail,
                    orthographic,
                ));
                assert(seq![s[0]] + rest =~= s);
            },
            None => {
                assert(out =~= seq![s[0]] + tail);
                if rest.len() == 0 {
                    assert(recompose_seq(out, orthographic) =~= s);
                } else {
                    assert(tail.len() >= 1);
                    match decomp(rest[0], orthographic) {
                        Some((b2, t2)) => {
                            assert(tail[0] == b2);
                            lemma_one_tone_mark(rest[0], orthographic);
                            lemma_compose_needs_tone_mark(s[0], b2);
                            assert(recompose_pair(s[0], out[1], orthographic) is None);
                        },
                        None => {
                            assert(tail[0] == rest[0]);
                            assert(recompose_pair(s[0], s[1], orthographic) is None);
                            assert(recompose_pair(s[0], out[1], orthographic) is None);
                        },
                    }
                    assert(out.skip(1) =~= tail);
                    assert(recompose_seq(out, orthographic) == seq![s[0]] + recompose_seq(
                        tail,
                        orthographic,
                    ));
                    assert(seq![s[0]] + rest =~= s);
                }
            },
        }
    }
}

} // verus!
