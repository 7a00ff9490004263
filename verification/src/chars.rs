//! Character-level text operations shared by the whole pipeline: whitespace
//! classification, trimming, whitespace-run collapsing, and replacement of a
//! fixed sentinel token by a single character.

use vstd::prelude::*;

verus! {

/// Whether a character counts as whitespace: the Unicode white-space set,
/// which is what trimming and whitespace collapsing go by.
pub open spec fn is_space(c: char) -> bool {
    c == ' ' || c == '\t' || c == '\n' || c == '\r' || c == '\u{000B}' || c == '\u{000C}'
        || c == '\u{0085}' || c == '\u{00A0}' || c == '\u{1680}' || ('\u{2000}' <= c && c
        <= '\u{200A}') || c == '\u{2028}' || c == '\u{2029}' || c == '\u{202F}' || c == '\u{205F}'
        || c == '\u{3000}'
}

/// Decides whitespace exactly as `is_space` describes it.
pub fn is_space_char(c: char) -> (r: bool)
    ensures
        r == is_space(c),
{
    c == ' ' || c == '\t' || c == '\n' || c == '\r' || c == '\u{000B}' || c == '\u{000C}'
        || c == '\u{0085}' || c == '\u{00A0}' || c == '\u{1680}' || ('\u{2000}' <= c && c
        <= '\u{200A}') || c == '\u{2028}' || c == '\u{2029}' || c == '\u{202F}' || c == '\u{205F}'
        || c == '\u{3000}'
}

/// The text with its leading whitespace removed.
pub open spec fn trim_start(t: Seq<char>) -> Seq<char>
    decreases t.len(),
{
    if t.len() > 0 && is_space(t[0]) {
        trim_start(t.drop_first())
    } else {
        t
    }
}

/// The text with its trailing whitespace removed.
pub open spec fn trim_end(t: Seq<char>) -> Seq<char>
    decreases t.len(),
{
    if t.len() > 0 && is_space(t.last()) {
        trim_end(t.drop_last())
    } else {
        t
    }
}

/// The text with leading and trailing whitespace removed.
pub open spec fn trimmed(t: Seq<char>) -> Seq<char> {
    trim_end(trim_start(t))
}

proof fn lemma_trim_start_skip(t: Seq<char>, i: int)
    requires
        0 <= i <= t.len(),
        forall|j: int| 0 <= j < i ==> is_space(t[j]),
        i == t.len() || !is_space(t[i]),
    ensures
        trim_start(t) == t.skip(i),
    decreases i,
{
    if i > 0 {
        lemma_trim_start_skip(t.drop_first(), i - 1);
        assert(t.drop_first().skip(i - 1) =~= t.skip(i));
    } else {
        assert(t.skip(0) =~= t);
    }
}

proof fn lemma_trim_end_take(t: Seq<char>, k: int)
    requires
        0 <= k <= t.len(),
        forall|j: int| k <= j < t.len() ==> is_space(t[j]),
        k == 0 || !is_space(t[k - 1]),
    ensures
        trim_end(t) == t.take(k),
    decreases t.len() - k,
{
    if k < t.len() {
        lemma_trim_end_take(t.drop_last(), k);
        assert(t.drop_last().take(k) =~= t.take(k));
    } else {
        assert(t.take(t.len() as int) =~= t);
    }
}

/// Removes leading and trailing whitespace, as `trimmed` describes.
pub fn trim_chars(v: &Vec<char>) -> (r: Vec<char>)
    ensures
        r@ == trimmed(v@),
{
    let mut lo: usize = 0;
    while lo < v.len() && is_space_char(v[lo])
        invariant
            lo <= v.len(),
            forall|j: int| 0 <= j < lo ==> is_space(v@[j]),
        decreases v.len() - lo,
    {
        lo = lo + 1;
    }
    let mut hi: usize = v.len();
    while hi > lo && is_space_char(v[hi - 1])
        invariant
            lo <= hi <= v.len(),
            forall|j: int| hi <= j < v.len() ==> is_space(v@[j]),
        decreases hi,
    {
        hi = hi - 1;
    }
    let mut r: Vec<char> = Vec::new();
    let mut i: usize = lo;
    while i < hi
        invariant
            lo <= i <= hi <= v.len(),
            r@ =~= v@.subrange(lo as int, i as int),
        decreases hi - i,
    {
        r.push(v[i]);
        i = i + 1;
    }
    proof {
        lemma_trim_start_skip(v@, lo as int);
        let s = v@.skip(lo as int);
        lemma_trim_end_take(s, hi - lo);
        assert(s.take(hi - lo) =~= v@.subrange(lo as int, hi as int));
    }
    r
}

/// Whether the text neither starts nor ends with whitespace.
pub open spec fn no_edge_space(t: Seq<char>) -> bool {
    t.len() == 0 || (!is_space(t[0]) && !is_space(t.last()))
}

/// Trimming removes every leading space: the result is empty or starts with a
/// non-space character.
pub proof fn lemma_trim_start_head(t: Seq<char>)
    ensures
        trim_start(t).len() == 0 || !is_space(trim_start(t)[0]),
    decreases t.len(),
{
    if t.len() > 0 && is_space(t[0]) {
        lemma_trim_start_head(t.drop_first());
    }
}

/// A non-empty start-trimmed text keeps the last character of the original.
pub proof fn lemma_trim_start_last(t: Seq<char>)
    requires
        trim_start(t).len() > 0,
    ensures
        t.len() > 0,
        trim_start(t).last() == t.last(),
    decreases t.len(),
{
    if t.len() > 0 && is_space(t[0]) {
        lemma_trim_start_last(t.drop_first());
    }
}

/// Trimming removes every trailing space: the result is empty or ends with a
/// non-space character.
pub proof fn lemma_trim_end_tail(t: Seq<char>)
    ensures
        trim_end(t).len() == 0 || !is_space(trim_end(t).last()),
    decreases t.len(),
{
    if t.len() > 0 && is_space(t.last()) {
        lemma_trim_end_tail(t.drop_last());
    }
}

/// A non-empty end-trimmed text keeps the first character of the original.
pub proof fn lemma_trim_end_head(t: Seq<char>)
    requires
        trim_end(t).len() > 0,
    ensures
        t.len() > 0,
        trim_end(t)[0] == t[0],
    decreases t.len(),
{
    if t.len() > 0 && is_space(t.last()) {
        lemma_trim_end_head(t.drop_last());
    }
}

/// A trimmed text neither starts nor ends with whitespace.
pub proof fn lemma_trimmed_no_edge_space(t: Seq<char>)
    ensures
        no_edge_space(trimmed(t)),
{
    lemma_trim_start_head(t);
    lemma_trim_end_tail(trim_start(t));
    if trimmed(t).len() > 0 {
        lemma_trim_end_head(trim_start(t));
    }
}

/// Trimming a text without edge whitespace changes nothing.
pub proof fn lemma_trimmed_identity(t: Seq<char>)
    requires
        no_edge_space(t),
    ensures
        trimmed(t) == t,
{
}

/// Trimming the start keeps everything from a non-space character on.
pub proof fn lemma_trim_start_keeps(t: Seq<char>, j: int)
    requires
        0 <= j < t.len(),
        !is_space(t[j]),
    ensures
        trim_start(t).len() >= t.len() - j,
    decreases t.len(),
{
    if t.len() > 0 && is_space(t[0]) {
        lemma_trim_start_keeps(t.drop_first(), j - 1);
    }
}

/// The text with every run of whitespace replaced by a single space, the way
/// the engine re-collapses a sentence candidate.
pub open spec fn collapsed(t: Seq<char>) -> Seq<char>
    decreases t.len(),
{
    if t.len() == 0 {
        Seq::empty()
    } else if is_space(t[0]) {
        if t.len() > 1 && is_space(t[1]) {
            collapsed(t.drop_first())
        } else {
            seq![' '] + collapsed(t.drop_first())
        }
    } else {
        seq![t[0]] + collapsed(t.drop_first())
    }
}

/// A collapsed text that ended with a non-space character is non-empty and
/// still ends with one.
pub proof fn lemma_collapsed_tail(t: Seq<char>)
    requires
        t.len() > 0,
        !is_space(t.last()),
    ensures
        collapsed(t).len() > 0,
        !is_space(collapsed(t).last()),
    decreases t.len(),
{
    if t.len() > 1 {
        lemma_collapsed_tail(t.drop_first());
        let rest = collapsed(t.drop_first());
        assert(t.drop_first().last() == t.last());
        if !is_space(t[0]) {
            assert((seq![t[0]] + rest).last() == rest.last());
        } else if !(t.len() > 1 && is_space(t[1])) {
            assert((seq![' '] + rest).last() == rest.last());
        }
    } else {
        assert(t[0] == t.last());
        assert(collapsed(t.drop_first()) == Seq::<char>::empty());
        assert(collapsed(t) == seq![t[0]] + Seq::<char>::empty());
        assert((seq![t[0]] + Seq::<char>::empty()).last() == t[0]);
    }
}

/// Collapsing keeps whitespace off the edges.
pub proof fn lemma_collapsed_no_edge_space(t: Seq<char>)
    requires
        no_edge_space(t),
    ensures
        no_edge_space(collapsed(t)),
{
    if t.len() > 0 {
        lemma_collapsed_tail(t);
    }
}

/// Replaces every run of whitespace by a single space, as `collapsed`
/// describes.
pub fn collapse_spaces(v: &Vec<char>) -> (r: Vec<char>)
    ensures
        r@ == collapsed(v@),
{
    let mut r: Vec<char> = Vec::new();
    let mut i: usize = 0;
    proof {
        assert(v@.skip(0) =~= v@);
        assert(Seq::<char>::empty() + collapsed(v@) =~= collapsed(v@));
    }
    while i < v.len()
        invariant
            i <= v.len(),
            collapsed(v@) == r@ + collapsed(v@.skip(i as int)),
        decreases v.len() - i,
    {
        proof {
            assert(v@.skip(i as int).drop_first() =~= v@.skip(i as int + 1));
        }
        if is_space_char(v[i]) {
            if i + 1 < v.len() && is_space_char(v[i + 1]) {
            } else {
                r.push(' ');
                proof {
                    assert(r@ == (r@.drop_last() + seq![' ']));
                    assert((r@.drop_last() + seq![' ']) + collapsed(v@.skip(i as int + 1))
                        =~= r@.drop_last() + (seq![' '] + collapsed(v@.skip(i as int + 1))));
                }
            }
        } else {
            let c = v[i];
            r.push(c);
            proof {
                assert(r@ == (r@.drop_last() + seq![c]));
                assert((r@.drop_last() + seq![c]) + collapsed(v@.skip(i as int + 1))
                    =~= r@.drop_last() + (seq![c] + collapsed(v@.skip(i as int + 1))));
            }
        }
        i = i + 1;
    }
    proof {
        assert(v@.skip(v@.len() as int) =~= Seq::<char>::empty());
        assert(r@ + Seq::<char>::empty() =~= r@);
    }
    r
}

/// The text with every occurrence of the sentinel token `tok`, taken
/// leftmost-first and without overlap, replaced by the single character
/// `rep`.
pub open spec fn unmasked(t: Seq<char>, tok: Seq<char>, rep: char) -> Seq<char>
    decreases t.len(),
    when tok.len() > 0
{
    if t.len() < tok.len() {
        t
    } else if t.take(tok.len() as int) == tok {
        seq![rep] + unmasked(t.skip(tok.len() as int), tok, rep)
    } else {
        seq![t[0]] + unmasked(t.drop_first(), tok, rep)
    }
}

/// Whether `v` holds exactly the token `tok` starting at position `i`.
fn token_at(v: &Vec<char>, i: usize, tok: &Vec<char>) -> (r: bool)
    requires
        i + tok@.len() <= v@.len(),
    ensures
        r == (v@.subrange(i as int, i as int + tok@.len() as int) == tok@),
{
    let vn = v.len();
    let mut j: usize = 0;
    while j < tok.len()
        invariant
            j <= tok@.len(),
            i + tok@.len() <= v@.len(),
            vn == v@.len(),
            forall|k: int| 0 <= k < j ==> v@[i + k] == tok@[k],
        decreases tok.len() - j,
    {
        proof {
            assert(i + j < v@.len());
        }
        if v[i + j] != tok[j] {
            proof {
                assert(v@.subrange(i as int, i as int + tok@.len() as int)[j as int] == v@[i + j]);
            }
            return false;
        }
        j = j + 1;
    }
    proof {
        assert(v@.subrange(i as int, i as int + tok@.len() as int) =~= tok@);
    }
    true
}

/// Replaces every occurrence of the token `tok` by the character `rep`, as
/// `unmasked` describes.
pub fn unmask(v: &Vec<char>, tok: &Vec<char>, rep: char) -> (r: Vec<char>)
    requires
        tok@.len() > 0,
    ensures
        r@ == unmasked(v@, tok@, rep),
{
    let mut r: Vec<char> = Vec::new();
    let mut i: usize = 0;
    proof {
        assert(v@.skip(0) =~= v@);
        assert(Seq::<char>::empty() + unmasked(v@, tok@, rep) =~= unmasked(v@, tok@, rep));
    }
    while i < v.len()
        invariant
            i <= v.len(),
            tok@.len() > 0,
            unmasked(v@, tok@, rep) == r@ + unmasked(v@.skip(i as int), tok@, rep),
        decreases v.len() - i,
    {
        let ghost s = v@.skip(i as int);
        if tok.len() <= v.len() - i && token_at(v, i, tok) {
            proof {
                assert(s.take(tok@.len() as int) =~= v@.subrange(
                    i as int,
                    i as int + tok@.len() as int,
                ));
                assert(s.skip(tok@.len() as int) =~= v@.skip(i as int + tok@.len() as int));
            }
            r.push(rep);
            proof {
                assert(r@ == (r@.drop_last() + seq![rep]));
                assert((r@.drop_last() + seq![rep]) + unmasked(
                    v@.skip(i as int + tok@.len() as int),
                    tok@,
                    rep,
                ) =~= r@.drop_last() + (seq![rep] + unmasked(
                    v@.skip(i as int + tok@.len() as int),
                    tok@,
                    rep,
                )));
            }
            i = i + tok.len();
        } else {
            proof {
                if s.len() >= tok@.len() {
                    assert(s.take(tok@.len() as int) =~= v@.subrange(
                        i as int,
                        i as int + tok@.len() as int,
                    ));
                }
                assert(s.drop_first() =~= v@.skip(i as int + 1));
            }
            let c = v[i];
            r.push(c);
            proof {
                assert(r@ == (r@.drop_last() + seq![c]));
                assert((r@.drop_last() + seq![c]) + unmasked(v@.skip(i as int + 1), tok@, rep)
                    =~= r@.drop_last() + (seq![c] + unmasked(v@.skip(i as int + 1), tok@, rep)));
            }
            i = i + 1;
        }
    }
    proof {
        assert(v@.skip(v@.len() as int) =~= Seq::<char>::empty());
        assert(r@ + Seq::<char>::empty() =~= r@);
    }
    r
}

/// Relies on the standard library's `String::push`: appends one character to
/// the end of the string.
pub assume_specification[ String::push ](s: &mut String, ch: char)
    ensures
        final(s)@ == old(s)@.push(ch),
;

/// The characters of a text, one by one.
pub fn str_to_chars(s: &str) -> (r: Vec<char>)
    ensures
        r@ == s@,
{
    let n = s.unicode_len();
    let mut r: Vec<char> = Vec::new();
    let mut i: usize = 0;
    while i < n
        invariant
            i <= n,
            n == s@.len(),
            r@ =~= s@.take(i as int),
        decreases n - i,
    {
        r.push(s.get_char(i));
        i = i + 1;
    }
    proof {
        assert(s@.take(n as int) =~= s@);
    }
    r
}

/// The text assembled back into a string, character by character.
pub fn chars_to_string(v: &Vec<char>) -> (r: String)
    ensures
        r@ == v@,
{
    let mut r = String::new();
    let mut i: usize = 0;
    while i < v.len()
        invariant
            i <= v.len(),
            r@ =~= v@.take(i as int),
        decreases v.len() - i,
    {
        r.push(v[i]);
        i = i + 1;
    }
    proof {
        assert(v@.take(v@.len() as int) =~= v@);
    }
    r
}

} // verus!
