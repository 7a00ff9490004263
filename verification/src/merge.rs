//! The recapitalization merge: for a script with letter case, a candidate
//! whose first character is lower-case is not a true sentence start, so it is
//! joined (space-separated) onto the sentence being assembled; a candidate
//! starting with an upper-case or non-letter character flushes the assembled
//! sentence and starts a new one.

use vstd::prelude::*;

use crate::chars::{trim_chars, trimmed};

verus! {

/// What the standard library's `char::is_lowercase` returns: whether the
/// character has the Unicode Lowercase property. The result depends on the
/// character alone.
pub uninterp spec fn unicode_lowercase(c: char) -> bool;

/// Relies on the standard library's `char::is_lowercase`, whose result is a
/// fixed property of the character.
pub assume_specification[ char::is_lowercase ](c: char) -> (r: bool)
    ensures
        r == unicode_lowercase(c),
;

/// The sentences the merge pass produces from candidate `i` on, with `acc`
/// the sentence being assembled (empty if none is open).
pub open spec fn merge_from(cands: Seq<Seq<char>>, i: int, acc: Seq<char>) -> Seq<Seq<char>>
    decreases cands.len() - i,
    when 0 <= i <= cands.len()
{
    if i >= cands.len() {
        if acc.len() > 0 {
            Seq::<Seq<char>>::empty().push(trimmed(acc))
        } else {
            Seq::<Seq<char>>::empty()
        }
    } else {
        let c = cands[i];
        if c.len() > 0 && unicode_lowercase(c[0]) {
            merge_from(cands, i + 1, acc.push(' ') + c)
        } else if acc.len() > 0 {
            Seq::<Seq<char>>::empty().push(trimmed(acc)) + merge_from(cands, i + 1, c)
        } else {
            merge_from(cands, i + 1, c)
        }
    }
}

/// The sentences the merge pass produces from a whole candidate list.
pub open spec fn merged(cands: Seq<Seq<char>>) -> Seq<Seq<char>> {
    merge_from(cands, 0, Seq::empty())
}

/// Appends every character of `src` to `dst`.
fn push_all(dst: &mut Vec<char>, src: &Vec<char>)
    ensures
        final(dst)@ == old(dst)@ + src@,
{
    let ghost d0 = dst@;
    let mut j: usize = 0;
    while j < src.len()
        invariant
            j <= src@.len(),
            dst@ =~= d0 + src@.take(j as int),
        decreases src@.len() - j,
    {
        dst.push(src[j]);
        j = j + 1;
    }
    proof {
        assert(d0 + src@.take(src@.len() as int) =~= d0 + src@);
    }
}

/// Runs the merge pass, as `merged` describes.
pub(crate) fn merge_candidates(cands: Vec<Vec<char>>) -> (r: Vec<Vec<char>>)
    ensures
        r.deep_view() == merged(cands.deep_view()),
{
    let ghost cv = cands.deep_view();
    let mut out: Vec<Vec<char>> = Vec::new();
    let mut acc: Vec<char> = Vec::new();
    let mut i: usize = 0;
    proof {
        assert(out.deep_view() =~= Seq::<Seq<char>>::empty());
        assert(Seq::<Seq<char>>::empty() + merged(cv) =~= merged(cv));
    }
    while i < cands.len()
        invariant
            i <= cands@.len(),
            cv == cands.deep_view(),
            cv.len() == cands@.len(),
            merged(cv) == out.deep_view() + merge_from(cv, i as int, acc@),
        decreases cands@.len() - i,
    {
        let c = &cands[i];
        proof {
            assert(cv[i as int] == cands@[i as int].deep_view());
            assert(cands@[i as int].deep_view() =~= c@);
        }
        let ghost out0 = out.deep_view();
        let ghost acc0 = acc@;
        if c.len() > 0 && c[0].is_lowercase() {
            acc.push(' ');
            push_all(&mut acc, c);
            proof {
                assert(acc@ =~= acc0.push(' ') + cv[i as int]);
            }
        } else {
            if acc.len() > 0 {
                let done = trim_chars(&acc);
                let ghost dv = done@;
                out.push(done);
                proof {
                    assert(out.deep_view() =~~= out0.push(dv));
                    assert(out0.push(dv) =~= out0 + Seq::<Seq<char>>::empty().push(dv));
                    assert((out0 + Seq::<Seq<char>>::empty().push(dv)) + merge_from(
                        cv,
                        i as int + 1,
                        cv[i as int],
                    ) =~= out0 + (Seq::<Seq<char>>::empty().push(dv) + merge_from(
                        cv,
                        i as int + 1,
                        cv[i as int],
                    )));
                }
            }
            acc = Vec::new();
            push_all(&mut acc, c);
            proof {
                assert(acc@ =~= cv[i as int]);
            }
        }
        i = i + 1;
    }
    if acc.len() > 0 {
        let done = trim_chars(&acc);
        let ghost out0 = out.deep_view();
        let ghost dv = done@;
        out.push(done);
        proof {
            assert(out.deep_view() =~~= out0.push(dv));
            assert(out0.push(dv) =~= out0 + Seq::<Seq<char>>::empty().push(dv));
        }
    } else {
        proof {
            assert(out.deep_view() + Seq::<Seq<char>>::empty() =~= out.deep_view());
        }
    }
    out
}

} // verus!
