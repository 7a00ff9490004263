//! The trusted boundary to the two regex engines. Every rewrite of the
//! normalization cascade goes through a `Rule` (a fancy_regex pattern
//! compiled once, with a literal replacement) or through the one `MaskRule`
//! (a regex pattern whose matches have their periods masked). What the
//! engines return is named by the uninterpreted functions `rewritten` and
//! `domain_masked`: for fixed engine options both are functions of their
//! arguments alone.

use vstd::prelude::*;

verus! {

#[verifier::external_type_specification]
#[verifier::external_body]
pub struct ExFancyRegex(fancy_regex::Regex);

#[verifier::external_type_specification]
#[verifier::external_body]
pub struct ExRegex(regex::Regex);

/// What one rewrite of the cascade produces: the result of
/// `fancy_regex::Regex::try_replacen` with no limit, for a given pattern,
/// text and replacement — or the text itself where the pattern does not
/// compile or the engine reports an error.
pub uninterp spec fn rewritten(pat: Seq<char>, text: Seq<char>, rep: Seq<char>) -> Seq<char>;

/// What the domain-masking pass produces: the result of
/// `regex::Regex::replace_all` for a given pattern over the text, each match
/// replaced by `periods_masked` of itself — or the text itself where the
/// pattern does not compile.
pub uninterp spec fn domain_masked(pat: Seq<char>, text: Seq<char>) -> Seq<char>;

/// The text with every period replaced by the domain-masking sentinel token,
/// so that a period inside a domain name is not read as a sentence boundary.
pub open spec fn periods_masked(t: Seq<char>) -> Seq<char>
    decreases t.len(),
{
    if t.len() == 0 {
        Seq::empty()
    } else if t[0] == '.' {
        seq!['&', '^', '&'] + periods_masked(t.drop_first())
    } else {
        seq![t[0]] + periods_masked(t.drop_first())
    }
}

/// Replaces every period by the masking token, as `periods_masked` describes.
/// The domain-masking pass hands each matched domain to this function.
pub fn mask_periods(s: &str) -> (r: String)
    ensures
        r@ == periods_masked(s@),
{
    let n = s.unicode_len();
    let mut r = String::new();
    let mut i: usize = 0;
    proof {
        assert(s@.skip(0) =~= s@);
        assert(Seq::<char>::empty() + periods_masked(s@) =~= periods_masked(s@));
    }
    while i < n
        invariant
            i <= n,
            n == s@.len(),
            periods_masked(s@) == r@ + periods_masked(s@.skip(i as int)),
        decreases n - i,
    {
        proof {
            assert(s@.skip(i as int).drop_first() =~= s@.skip(i as int + 1));
        }
        let c = s.get_char(i);
        let ghost r0 = r@;
        if c == '.' {
            r.push('&');
            r.push('^');
            r.push('&');
            proof {
                assert(r@ =~= r0 + seq!['&', '^', '&']);
                assert((r0 + seq!['&', '^', '&']) + periods_masked(s@.skip(i as int + 1)) =~= r0
                    + (seq!['&', '^', '&'] + periods_masked(s@.skip(i as int + 1))));
            }
        } else {
            r.push(c);
            proof {
                assert(r@ =~= r0 + seq![c]);
                assert((r0 + seq![c]) + periods_masked(s@.skip(i as int + 1)) =~= r0 + (seq![c]
                    + periods_masked(s@.skip(i as int + 1))));
            }
        }
        i = i + 1;
    }
    proof {
        assert(s@.skip(n as int) =~= Seq::<char>::empty());
        assert(r@ + Seq::<char>::empty() =~= r@);
    }
    r
}

/// One rewrite rule of the normalization cascade: a pattern, compiled once
/// when the rule is built, and the literal replacement text.
pub struct Rule {
    re: Option<fancy_regex::Regex>,
    pat: String,
    rep: String,
}

impl Rule {
    /// The pattern this rule rewrites.
    pub closed spec fn pat(self) -> Seq<char> {
        self.pat@
    }

    /// The replacement text this rule writes over each match.
    pub closed spec fn rep(self) -> Seq<char> {
        self.rep@
    }

    /// The pattern and replacement as one pair.
    pub open spec fn v(self) -> (Seq<char>, Seq<char>) {
        (self.pat(), self.rep())
    }

    /// Relies on `fancy_regex::Regex::new`: compiles the pattern the rule
    /// stores, once, when the rule is built.
    #[verifier::external_body]
    pub(crate) fn new(pat: String, rep: String) -> (r: Rule)
        ensures
            r.pat() == pat@,
            r.rep() == rep@,
    {
        let re = fancy_regex::Regex::new(&pat).ok();
        Rule { re, pat, rep }
    }

    /// Relies on `fancy_regex::Regex::try_replacen` with no limit: rewrites
    /// every non-overlapping match of the stored pattern to the stored
    /// replacement. A pattern that did not compile, or a run on which the
    /// engine reports an error (its backtracking limit), leaves the text
    /// unchanged; with the engine's fixed default options the outcome is a
    /// function of pattern, text and replacement, named `rewritten`.
    #[verifier::external_body]
    pub(crate) fn apply(&self, text: &str) -> (r: String)
        ensures
            r@ == rewritten(self.pat(), text@, self.rep()),
    {
        match &self.re {
            Some(re) => match re.try_replacen(text, 0, self.rep.as_str()) {
                Ok(done) => done.into_owned(),
                Err(_) => text.to_string(),
            },
            None => text.to_string(),
        }
    }
}

/// The domain-masking rule: one regex pattern, compiled once, whose matches
/// have their internal periods replaced by the masking token.
pub struct MaskRule {
    re: Option<regex::Regex>,
    pat: String,
}

impl MaskRule {
    /// The pattern this rule masks.
    pub closed spec fn pat(self) -> Seq<char> {
        self.pat@
    }

    /// Relies on `regex::Regex::new`: compiles the pattern the rule stores,
    /// once, when the rule is built.
    #[verifier::external_body]
    pub(crate) fn new(pat: String) -> (r: MaskRule)
        ensures
            r.pat() == pat@,
    {
        let re = regex::Regex::new(&pat).ok();
        MaskRule { re, pat }
    }

    /// Relies on `regex::Regex::replace_all`, with a callback that hands each
    /// match to the verified `mask_periods`: every non-overlapping match of
    /// the stored pattern has its periods replaced by the masking token. A
    /// pattern that did not compile leaves the text unchanged; the outcome is
    /// a function of pattern and text, named `domain_masked`.
    #[verifier::external_body]
    pub(crate) fn apply(&self, text: &str) -> (r: String)
        ensures
            r@ == domain_masked(self.pat(), text@),
    {
        match &self.re {
            Some(re) => re.replace_all(
                text,
                |caps: &regex::Captures| match caps.get(0) {
                    Some(m) => mask_periods(m.as_str()),
                    None => String::new(),
                },
            ).into_owned(),
            None => text.to_string(),
        }
    }
}

} // verus!
