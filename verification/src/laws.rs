//! Engine-wide laws, each proved over the same specifications the public
//! functions promise: the minimum sentence length, the lower-case-start
//! merge, the absence of merging for caseless scripts, and the sentinel
//! masking round trip.

use vstd::prelude::*;

use crate::cascade::normalized;
use crate::chars::{
    is_space, lemma_collapsed_no_edge_space, lemma_trim_start_keeps, lemma_trim_start_last,
    lemma_trimmed_identity, lemma_trimmed_no_edge_space, no_edge_space, trim_end, trim_start,
    trimmed, unmasked,
};
use crate::config::ConfigV;
use crate::engine::segmented;
use crate::merge::{merge_from, merged, unicode_lowercase};
use crate::rules::periods_masked;
use crate::scan::{flushed, flushed_tail, period_token, scan_from, scanned, unmask_all};

verus! {

/// A well-formed sentence candidate as the boundary scan emits it: longer
/// than two characters, with no whitespace at either edge.
pub open spec fn good_candidate(c: Seq<char>) -> bool {
    c.len() > 2 && no_edge_space(c)
}

proof fn lemma_flushed_no_edge_space(cfg: ConfigV, buf: Seq<char>, term: char)
    ensures
        no_edge_space(flushed(cfg, buf, term)),
{
    let u = unmask_all(cfg, trimmed(buf).push(term));
    lemma_trimmed_no_edge_space(u);
    lemma_collapsed_no_edge_space(trimmed(u));
}

proof fn lemma_flushed_tail_no_edge_space(cfg: ConfigV, buf: Seq<char>)
    ensures
        no_edge_space(flushed_tail(cfg, buf)),
{
    let u = unmask_all(cfg, trimmed(buf).push(cfg.period));
    lemma_trimmed_no_edge_space(u);
}

proof fn lemma_scan_candidates_good(cfg: ConfigV, t: Seq<char>, i: int, buf: Seq<char>)
    requires
        0 <= i <= t.len(),
    ensures
        forall|k: int|
            0 <= k < scan_from(cfg, t, i, buf).len() ==> good_candidate(
                #[trigger] scan_from(cfg, t, i, buf)[k],
            ),
    decreases t.len() - i,
{
    let here = scan_from(cfg, t, i, buf);
    if i >= t.len() {
        if buf.len() > 0 {
            lemma_flushed_tail_no_edge_space(cfg, buf);
        }
    } else if crate::config::is_terminal(cfg, t[i]) {
        lemma_flushed_no_edge_space(cfg, buf, t[i]);
        lemma_scan_candidates_good(cfg, t, i + 1, Seq::empty());
        let c = flushed(cfg, buf, t[i]);
        let rest = scan_from(cfg, t, i + 1, Seq::<char>::empty());
        if c.len() > 2 {
            assert(here == Seq::<Seq<char>>::empty().push(c) + rest);
            assert forall|k: int| 0 <= k < here.len() implies good_candidate(
                #[trigger] here[k],
            ) by {
                if k == 0 {
                    assert(here[0] == c);
                } else {
                    assert(here[k] == rest[k - 1]);
                }
            }
        } else {
            assert forall|k: int| 0 <= k < here.len() implies good_candidate(
                #[trigger] here[k],
            ) by {
                assert(here[k] == rest[k]);
            }
        }
    } else {
        lemma_scan_candidates_good(cfg, t, i + 1, buf.push(t[i]));
        let rest = scan_from(cfg, t, i + 1, buf.push(t[i]));
        assert forall|k: int| 0 <= k < here.len() implies good_candidate(#[trigger] here[k]) by {
            assert(here[k] == rest[k]);
        }
    }
}

/// The sentence being assembled by the merge pass is either closed (empty) or
/// already long enough once trimmed, and never ends in whitespace.
spec fn good_acc(acc: Seq<char>) -> bool {
    acc.len() == 0 || (!is_space(acc.last()) && trimmed(acc).len() > 2)
}

proof fn lemma_joined_good(acc: Seq<char>, c: Seq<char>)
    requires
        good_candidate(c),
    ensures
        good_acc(acc.push(' ') + c),
{
    let joined = acc.push(' ') + c;
    assert(joined.last() == c.last());
    let j = acc.len() + 1;
    assert(joined[j as int] == c[0]);
    lemma_trim_start_keeps(joined, j as int);
    assert(trim_start(joined).len() >= c.len() > 2);
    lemma_trim_start_last(joined);
    assert(!is_space(trim_start(joined).last()));
    assert(trim_end(trim_start(joined)) == trim_start(joined));
}

proof fn lemma_merge_min(cands: Seq<Seq<char>>, i: int, acc: Seq<char>)
    requires
        0 <= i <= cands.len(),
        forall|j: int| i <= j < cands.len() ==> good_candidate(#[trigger] cands[j]),
        good_acc(acc),
    ensures
        forall|k: int|
            0 <= k < merge_from(cands, i, acc).len() ==> #[trigger] merge_from(
                cands,
                i,
                acc,
            )[k].len() > 2,
    decreases cands.len() - i,
{
    let here = merge_from(cands, i, acc);
    if i >= cands.len() {
    } else {
        let c = cands[i];
        assert(good_candidate(c));
        if c.len() > 0 && unicode_lowercase(c[0]) {
            lemma_joined_good(acc, c);
            lemma_merge_min(cands, i + 1, acc.push(' ') + c);
            let rest = merge_from(cands, i + 1, acc.push(' ') + c);
            assert forall|k: int| 0 <= k < here.len() implies #[trigger] here[k].len() > 2 by {
                assert(here[k] == rest[k]);
            }
        } else {
            lemma_trimmed_identity(c);
            lemma_merge_min(cands, i + 1, c);
            let rest = merge_from(cands, i + 1, c);
            if acc.len() > 0 {
                assert(here == Seq::<Seq<char>>::empty().push(trimmed(acc)) + rest);
                assert forall|k: int| 0 <= k < here.len() implies #[trigger] here[k].len() > 2 by {
                    if k == 0 {
                        assert(here[0] == trimmed(acc));
                    } else {
                        assert(here[k] == rest[k - 1]);
                    }
                }
            } else {
                assert forall|k: int| 0 <= k < here.len() implies #[trigger] here[k].len() > 2 by {
                    assert(here[k] == rest[k]);
                }
            }
        }
    }
}

/// No sentence shorter than three characters: for any configuration and any
/// text, every sentence the engine returns is longer than two characters.
/// The boundary scan discards shorter candidates, and the merge pass only
/// ever joins whole candidates and trims whitespace off their edges.
pub proof fn lemma_min_sentence_length(cfg: ConfigV, text: Seq<char>)
    ensures
        forall|k: int|
            0 <= k < segmented(cfg, text).len() ==> #[trigger] segmented(cfg, text)[k].len() > 2,
{
    let norm = normalized(cfg.alphabets, cfg.question, cfg.exclam, text);
    lemma_scan_candidates_good(cfg, norm, 0, Seq::empty());
    if cfg.has_case {
        lemma_merge_min(scanned(cfg, norm), 0, Seq::empty());
    }
}

/// Lower-case-start merge: a candidate that begins with a lower-case letter
/// does not start a sentence of its own; after a candidate that does not
/// begin lower-case, the two come back as one sentence, joined by a single
/// space and trimmed.
pub proof fn lemma_lowercase_start_merges(a: Seq<char>, b: Seq<char>)
    requires
        a.len() > 0,
        !unicode_lowercase(a[0]),
        b.len() > 0,
        unicode_lowercase(b[0]),
    ensures
        merged(Seq::<Seq<char>>::empty().push(a).push(b)) == Seq::<Seq<char>>::empty().push(
            trimmed(a.push(' ') + b),
        ),
{
    let cands = Seq::<Seq<char>>::empty().push(a).push(b);
    assert(cands[0] == a && cands[1] == b);
    assert(merge_from(cands, 0, Seq::empty()) == merge_from(cands, 1, a));
    assert(merge_from(cands, 1, a) == merge_from(cands, 2, a.push(' ') + b));
    assert((a.push(' ') + b).len() > 0);
    assert(merge_from(cands, 2, a.push(' ') + b) == Seq::<Seq<char>>::empty().push(
        trimmed(a.push(' ') + b),
    ));
}

/// Whether the text is free of the ampersand that frames every sentinel
/// token.
pub open spec fn ampersand_free(t: Seq<char>) -> bool {
    forall|i: int| 0 <= i < t.len() ==> t[i] != '&'
}

proof fn lemma_masked_len(t: Seq<char>)
    ensures
        periods_masked(t).len() >= t.len(),
    decreases t.len(),
{
    if t.len() > 0 {
        lemma_masked_len(t.drop_first());
    }
}

/// A sentinel is unmasked exactly once: on text free of the sentinel's frame
/// character, masking every period for the domain pass and then unmasking
/// restores the text exactly.
pub proof fn lemma_period_mask_round_trip(t: Seq<char>)
    requires
        ampersand_free(t),
    ensures
        unmasked(periods_masked(t), period_token(), '.') == t,
    decreases t.len(),
{
    let tok = period_token();
    let m = periods_masked(t);
    if t.len() == 0 {
        assert(m == Seq::<char>::empty());
    } else {
        let rest = t.drop_first();
        assert forall|j: int| 0 <= j < rest.len() implies rest[j] != '&' by {
            assert(rest[j] == t[j + 1]);
        }
        lemma_period_mask_round_trip(rest);
        lemma_masked_len(rest);
        let mr = periods_masked(rest);
        if t[0] == '.' {
            assert(m == seq!['&', '^', '&'] + mr);
            assert(m.take(3) =~= tok);
            assert(m.skip(3) =~= mr);
            assert(unmasked(m, tok, '.') == seq!['.'] + unmasked(mr, tok, '.'));
            assert(seq!['.'] + rest =~= t);
        } else {
            assert(m == seq![t[0]] + mr);
            if m.len() >= 3 {
                assert(m.take(3)[0] == t[0]);
                assert(tok[0] == '&');
                assert(m.take(3) != tok);
                assert(m.drop_first() =~= mr);
                assert(unmasked(m, tok, '.') == seq![t[0]] + unmasked(mr, tok, '.'));
                assert(seq![t[0]] + rest =~= t);
            } else {
                assert(unmasked(m, tok, '.') == m);
                if rest.len() == 0 {
                    assert(mr == Seq::<char>::empty());
                    assert(m =~= t);
                } else {
                    assert(rest.len() == 1 && mr.len() == m.len() - 1 < 2);
                    assert(rest[0] != '.') by {
                        if rest[0] == '.' {
                            assert(mr == seq!['&', '^', '&'] + periods_masked(rest.drop_first()));
                            assert(mr.len() >= 3);
                        }
                    }
                    assert(mr == seq![rest[0]] + periods_masked(rest.drop_first()));
                    assert(periods_masked(rest.drop_first()) == Seq::<char>::empty());
                    assert(m =~= t);
                }
            }
        }
    }
}

/// Caseless scripts never merge: when the configuration has no letter case,
/// the sentences are exactly the length-valid candidates the boundary scan
/// emits, in order, with no merge pass applied.
pub proof fn lemma_caseless_no_merge(cfg: ConfigV, text: Seq<char>)
    requires
        !cfg.has_case,
    ensures
        segmented(cfg, text) == scanned(
            cfg,
            normalized(cfg.alphabets, cfg.question, cfg.exclam, text),
        ),
{
}

} // verus!
