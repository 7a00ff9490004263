//! The boundary scan: the normalized text is read one character at a time
//! into a buffer; a terminal-punctuation character flushes the buffer as a
//! sentence candidate (trimmed, unmasked, trimmed again, whitespace
//! collapsed), and a candidate survives only if it is longer than two
//! characters. At end of input a non-empty buffer is flushed with the
//! language's primary period appended.

use vstd::prelude::*;

use crate::chars::{collapse_spaces, collapsed, trim_chars, trimmed, unmask, unmasked};
use crate::config::{is_terminal, ConfigV, LanguageConfig};

verus! {

/// The sentinel token standing for a masked question mark.
pub open spec fn question_token() -> Seq<char> {
    Seq::<char>::empty().push('&').push('ᓷ').push('&')
}

/// The sentinel token standing for a masked exclamation mark.
pub open spec fn exclam_token() -> Seq<char> {
    Seq::<char>::empty().push('&').push('ᓴ').push('&')
}

/// The sentinel token standing for a masked period inside a domain name.
pub open spec fn period_token() -> Seq<char> {
    Seq::<char>::empty().push('&').push('^').push('&')
}

/// Every sentinel put in during normalization taken back out: question-mark
/// sentinels first, then exclamation-mark sentinels, then domain-period
/// sentinels.
pub open spec fn unmask_all(cfg: ConfigV, t: Seq<char>) -> Seq<char> {
    unmasked(
        unmasked(unmasked(t, question_token(), cfg.question), exclam_token(), cfg.exclam),
        period_token(),
        '.',
    )
}

/// A candidate flushed at a terminal character: the buffer trimmed, the
/// terminator appended, sentinels unmasked, the result trimmed again and its
/// whitespace collapsed.
pub open spec fn flushed(cfg: ConfigV, buf: Seq<char>, term: char) -> Seq<char> {
    collapsed(trimmed(unmask_all(cfg, trimmed(buf).push(term))))
}

/// The candidate flushed at end of input: the primary period is appended and
/// no whitespace collapse runs.
pub open spec fn flushed_tail(cfg: ConfigV, buf: Seq<char>) -> Seq<char> {
    trimmed(unmask_all(cfg, trimmed(buf).push(cfg.period)))
}

/// The candidates the boundary scan emits from position `i` on, with `buf`
/// already accumulated.
pub open spec fn scan_from(cfg: ConfigV, t: Seq<char>, i: int, buf: Seq<char>) -> Seq<Seq<char>>
    decreases t.len() - i,
    when 0 <= i <= t.len()
{
    if i >= t.len() {
        if buf.len() > 0 {
            let c = flushed_tail(cfg, buf);
            if c.len() > 2 {
                Seq::<Seq<char>>::empty().push(c)
            } else {
                Seq::<Seq<char>>::empty()
            }
        } else {
            Seq::<Seq<char>>::empty()
        }
    } else if is_terminal(cfg, t[i]) {
        let c = flushed(cfg, buf, t[i]);
        if c.len() > 2 {
            Seq::<Seq<char>>::empty().push(c) + scan_from(cfg, t, i + 1, Seq::empty())
        } else {
            scan_from(cfg, t, i + 1, Seq::empty())
        }
    } else {
        scan_from(cfg, t, i + 1, buf.push(t[i]))
    }
}

/// The sentence candidates of a whole normalized text.
pub open spec fn scanned(cfg: ConfigV, t: Seq<char>) -> Seq<Seq<char>> {
    scan_from(cfg, t, 0, Seq::empty())
}

/// A three-character sentinel token as a vector.
fn token(a: char, b: char, c: char) -> (r: Vec<char>)
    ensures
        r@ == Seq::<char>::empty().push(a).push(b).push(c),
{
    let mut r: Vec<char> = Vec::new();
    r.push(a);
    r.push(b);
    r.push(c);
    r
}

/// Takes every sentinel back out, as `unmask_all` describes.
fn unmask_all_chars(cfg: &LanguageConfig, v: &Vec<char>) -> (r: Vec<char>)
    ensures
        r@ == unmask_all(cfg@, v@),
{
    let qtok = token('&', 'ᓷ', '&');
    let etok = token('&', 'ᓴ', '&');
    let ptok = token('&', '^', '&');
    let a = unmask(v, &qtok, cfg.question);
    let b = unmask(&a, &etok, cfg.exclam);
    unmask(&b, &ptok, '.')
}

/// Flushes the buffer at a terminal character, as `flushed` describes.
fn flush_candidate(cfg: &LanguageConfig, buf: &Vec<char>, term: char) -> (r: Vec<char>)
    ensures
        r@ == flushed(cfg@, buf@, term),
{
    let mut t = trim_chars(buf);
    t.push(term);
    let u = unmask_all_chars(cfg, &t);
    let u2 = trim_chars(&u);
    collapse_spaces(&u2)
}

/// Flushes the buffer at end of input, as `flushed_tail` describes.
fn flush_tail(cfg: &LanguageConfig, buf: &Vec<char>) -> (r: Vec<char>)
    ensures
        r@ == flushed_tail(cfg@, buf@),
{
    let mut t = trim_chars(buf);
    t.push(cfg.period);
    let u = unmask_all_chars(cfg, &t);
    trim_chars(&u)
}

/// Runs the boundary scan over a normalized text, as `scanned` describes.
pub(crate) fn scan_text(cfg: &LanguageConfig, t: &Vec<char>) -> (r: Vec<Vec<char>>)
    ensures
        r.deep_view() == scanned(cfg@, t@),
{
    let mut out: Vec<Vec<char>> = Vec::new();
    let mut buf: Vec<char> = Vec::new();
    let mut i: usize = 0;
    proof {
        assert(out.deep_view() =~= Seq::<Seq<char>>::empty());
        assert(Seq::<Seq<char>>::empty() + scanned(cfg@, t@) =~= scanned(cfg@, t@));
    }
    while i < t.len()
        invariant
            i <= t@.len(),
            scanned(cfg@, t@) == out.deep_view() + scan_from(cfg@, t@, i as int, buf@),
        decreases t@.len() - i,
    {
        let c = t[i];
        let ghost out0 = out.deep_view();
        let ghost buf0 = buf@;
        if cfg.terminal(c) {
            let cand = flush_candidate(cfg, &buf, c);
            if cand.len() > 2 {
                let ghost cv = cand@;
                out.push(cand);
                proof {
                    assert(out.deep_view() =~~= out0.push(cv));
                    assert(scan_from(cfg@, t@, i as int, buf0) == Seq::<Seq<char>>::empty().push(
                        cv,
                    ) + scan_from(cfg@, t@, i as int + 1, Seq::empty()));
                    assert(out0.push(cv) =~= out0 + Seq::<Seq<char>>::empty().push(cv));
                    assert((out0 + Seq::<Seq<char>>::empty().push(cv)) + scan_from(
                        cfg@,
                        t@,
                        i as int + 1,
                        Seq::empty(),
                    ) =~= out0 + (Seq::<Seq<char>>::empty().push(cv) + scan_from(
                        cfg@,
                        t@,
                        i as int + 1,
                        Seq::empty(),
                    )));
                }
            }
            buf = Vec::new();
        } else {
            buf.push(c);
        }
        i = i + 1;
    }
    if buf.len() > 0 {
        let cand = flush_tail(cfg, &buf);
        if cand.len() > 2 {
            let ghost out0 = out.deep_view();
            let ghost cv = cand@;
            out.push(cand);
            proof {
                assert(out.deep_view() =~~= out0.push(cv));
                assert(out0.push(cv) =~= out0 + Seq::<Seq<char>>::empty().push(cv));
            }
        } else {
            proof {
                assert(out.deep_view() + Seq::<Seq<char>>::empty() =~= out.deep_view());
            }
        }
    } else {
        proof {
            assert(out.deep_view() + Seq::<Seq<char>>::empty() =~= out.deep_view());
        }
    }
    out
}

} // verus!
