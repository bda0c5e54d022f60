//! The stateful decomposing transform: a pull-based adapter that expands
//! composed characters into base-plus-tone-mark pairs, one output character
//! per call.

use vstd::prelude::*;
use crate::tables::decomp;
use crate::tables::decompose_char;
use crate::tables::is_tone_mark;
use crate::tables::lemma_one_tone_mark;

verus! {

/// The expansion of a single character under the given mode: the base and
/// tone mark where the character decomposes, the character alone where it
/// does not.
pub open spec fn decompose_one(c: char, orthographic: bool) -> Seq<char> {
    match decomp(c, orthographic) {
        Some((b, t)) => seq![b, t],
        None => seq![c],
    }
}

/// The decomposition of a whole sequence: each character's expansion in
/// order, concatenated.
pub open spec fn decompose_seq(s: Seq<char>, orthographic: bool) -> Seq<char>
    decreases s.len(),
{
    if s.len() == 0 {
        Seq::empty()
    } else {
        decompose_one(s[0], orthographic) + decompose_seq(s.drop_first(), orthographic)
    }
}

/// A character absent from all three tables is echoed unchanged,
/// whichever mode is in effect.
pub proof fn lemma_pass_through_unchanged(c: char, orthographic: bool)
    requires
        decomp(c, true) is None,
    ensures
        decompose_one(c, orthographic) == seq![c],
{
}

/// An adapter yielding `char` with tone marks detached.
///
/// It consumes its input one character at a time and holds at most one
/// character of buffered output: the tone mark split off a composed
/// character, emitted on the pull after the base letter.
#[derive(Debug)]
pub struct DecomposeVietnamese {
    input: Vec<char>,
    pos: usize,
    pending: Option<char>,
    orthographic: bool,
}

impl DecomposeVietnamese {
    /// Well-formedness: the cursor is inside the input and anything
    /// buffered is one of the five combining tone marks.
    pub closed spec fn wf(self) -> bool {
        &&& self.pos <= self.input@.len()
        &&& (self.pending matches Some(t) ==> is_tone_mark(t))
    }

    /// The mode the adapter was constructed with.
    pub closed spec fn is_orthographic(self) -> bool {
        self.orthographic
    }

    /// The output characters not yet produced: the buffered tone mark, if
    /// any, followed by the decomposition of the unread input.
    pub closed spec fn remaining(self) -> Seq<char> {
        (match self.pending {
            Some(t) => seq![t],
            None => Seq::empty(),
        }) + decompose_seq(self.input@.skip(self.pos as int), self.orthographic)
    }

    /// A fresh adapter over `input`, nothing buffered, mode fixed for its
    /// lifetime.
    pub fn new(input: Vec<char>, orthographic: bool) -> (r: DecomposeVietnamese)
        ensures
            r.wf(),
            r.is_orthographic() == orthographic,
            r.remaining() == decompose_seq(input@, orthographic),
    {
        let r = DecomposeVietnamese { input, pos: 0, pending: None, orthographic };
        proof {
            assert(r.input@.skip(0) =~= r.input@);
            assert(r.remaining() =~= decompose_seq(r.input@, orthographic));
        }
        r
    }

    /// Produces the next output character, or `None` once the input is
    /// exhausted and nothing is buffered. A buffered tone mark is emitted
    /// first, without consuming input; afterwards exhaustion is stable:
    /// every further call returns `None` again.
    pub fn next(&mut self) -> (r: Option<char>)
        requires
            old(self).wf(),
        ensures
            final(self).wf(),
            final(self).is_orthographic() == old(self).is_orthographic(),
            match r {
                Some(c) => {
                    &&& old(self).remaining().len() > 0
                    &&& c == old(self).remaining()[0]
                    &&& final(self).remaining() == old(self).remaining().drop_first()
                },
                None => {
                    &&& old(self).remaining().len() == 0
                    &&& final(self).remaining() == old(self).remaining()
                },
            },
    {
        let ghost pre = *self;
        if let Some(t) = self.pending {
            self.pending = None;
            proof {
                assert(self.remaining() =~= pre.remaining().drop_first());
            }
            return Some(t);
        }
        if self.pos < self.input.len() {
            let c = self.input[self.pos];
            let ghost unread = pre.input@.skip(pre.pos as int);
            proof {
                assert(unread[0] == c);
                assert(unread.drop_first() =~= pre.input@.skip(pre.pos as int + 1));
            }
            self.pos = self.pos + 1;
            if let Some(pair) = decompose_char(c, self.orthographic) {
                proof {
                    lemma_one_tone_mark(c, pre.orthographic);
                }
                self.pending = Some(pair.1);
                proof {
                    assert(pre.remaining() =~= seq![pair.0, pair.1]
                        + decompose_seq(self.input@.skip(self.pos as int), self.orthographic));
                    assert(self.remaining() =~= pre.remaining().drop_first());
                }
                Some(pair.0)
            } else {
                proof {
                    assert(pre.remaining() =~= seq![c]
                        + decompose_seq(self.input@.skip(self.pos as int), self.orthographic));
                    assert(self.remaining() =~= pre.remaining().drop_first());
                }
                Some(c)
            }
        } else {
            proof {
                assert(pre.input@.skip(pre.pos as int) =~= Seq::<char>::empty());
                assert(pre.remaining() =~= Seq::<char>::empty());
            }
            None
        }
    }

    /// Runs the adapter to exhaustion and collects every output character,
    /// in order.
    pub fn into_vec(self) -> (r: Vec<char>)
        requires
            self.wf(),
        ensures
            r@ == self.remaining(),
    {
        let ghost whole = self.remaining();
        let mut me = self;
        let mut out: Vec<char> = Vec::new();
        let mut done = false;
        while !done
            invariant
                me.wf(),
                out@ + me.remaining() == whole,
                done ==> me.remaining().len() == 0,
            decreases me.remaining().len() + (if done { 0int } else { 1int }),
        {
            let ghost before = me.remaining();
            let ghost out_before = out@;
            match me.next() {
                Some(c) => {
                    out.push(c);
                    proof {
                        assert(out@ + me.remaining() =~= out_before + before);
                    }
                },
                None => {
                    done = true;
                },
            }
        }
        proof {
            assert(out@ =~= whole);
        }
        out
    }
}

/// Trait that adds a `decompose_vietnamese_tones` method to owned
/// sequences of `char`.
pub trait IterDecomposeVietnamese where Self: View<V = Seq<char>> + Sized {
    /// Assuming that `self` holds a sequence of `char`s in canonical
    /// composed normalization form (this precondition is not checked!),
    /// yields an adapter over it with Vietnamese tone marks less or more
    /// decomposed. The output is not in any Unicode normalization form:
    /// circumflex, breve and horn are not detached from their base letters.
    ///
    /// If `orthographic` is `false`, a tone mark is decomposed only when
    /// the incoming character has no precomposed form in windows-1258.
    /// If `orthographic` is `true`, tone marks are always decomposed.
    fn decompose_vietnamese_tones(self, orthographic: bool) -> (r: DecomposeVietnamese)
        ensures
            r.wf(),
            r.is_orthographic() == orthographic,
            r.remaining() == decompose_seq(self@, orthographic),
    ;
}

impl IterDecomposeVietnamese for Vec<char> {
    fn decompose_vietnamese_tones(self, orthographic: bool) -> (r: DecomposeVietnamese) {
        DecomposeVietnamese::new(self, orthographic)
    }
}

} // verus!
