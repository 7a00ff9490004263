//! The segmentation engine: a `Segmenter` holds one language's configuration
//! with every pattern of the normalization cascade compiled once, and turns
//! raw text into the ordered sequence of its sentences.

use vstd::prelude::*;

use crate::cascade::{
    apply_all, apply_rules, build_domain, build_post, build_pre, domain_pattern, normalized,
    post_rules, pre_rules, rule_pairs,
};
use crate::chars::{chars_to_string, str_to_chars};
use crate::config::{ConfigV, LanguageConfig};
use crate::merge::{merge_candidates, merged};
use crate::rules::{MaskRule, Rule};
use crate::scan::{scan_text, scanned};

verus! {

/// The sentences of a text under a configuration: the text is normalized by
/// the cascade, scanned into candidates, and, for a script with letter case,
/// the merge pass reattaches candidates that begin lower-case; a caseless
/// script takes the candidates as they are.
pub open spec fn segmented(cfg: ConfigV, text: Seq<char>) -> Seq<Seq<char>> {
    let cands = scanned(cfg, normalized(cfg.alphabets, cfg.question, cfg.exclam, text));
    if cfg.has_case {
        merged(cands)
    } else {
        cands
    }
}

/// Turns each candidate into an owned string, character for character.
fn strings_of(cands: Vec<Vec<char>>) -> (r: Vec<String>)
    ensures
        r.deep_view() == cands.deep_view(),
{
    let ghost cv = cands.deep_view();
    let mut r: Vec<String> = Vec::new();
    let mut i: usize = 0;
    while i < cands.len()
        invariant
            i <= cands@.len(),
            cv == cands.deep_view(),
            cv.len() == cands@.len(),
            r.deep_view() =~= cv.take(i as int),
        decreases cands@.len() - i,
    {
        let ghost r0 = r.deep_view();
        let s = chars_to_string(&cands[i]);
        let ghost sv = s@;
        r.push(s);
        proof {
            assert(cv[i as int] == cands@[i as int].deep_view());
            assert(cands@[i as int].deep_view() =~= cands@[i as int]@);
            assert(r.deep_view() =~~= r0.push(sv));
            assert(r0.push(sv) =~= cv.take(i as int + 1));
        }
        i = i + 1;
    }
    proof {
        assert(cv.take(cv.len() as int) =~= cv);
    }
    r
}

/// One language's segmenter: the configuration together with every rule of
/// the normalization cascade, each pattern compiled once at build time and
/// reused for every call.
pub struct Segmenter {
    cfg: LanguageConfig,
    pre: Vec<Rule>,
    domain: MaskRule,
    post: Vec<Rule>,
}

impl Segmenter {
    /// The built rules carry exactly the cascade's patterns for this
    /// configuration.
    pub closed spec fn wf(self) -> bool {
        &&& rule_pairs(self.pre@) == pre_rules(self.cfg@.alphabets)
        &&& self.domain.pat() == domain_pattern()
        &&& rule_pairs(self.post@) == post_rules(
            self.cfg@.alphabets,
            self.cfg@.question,
            self.cfg@.exclam,
        )
    }

    /// The configuration this segmenter was built from.
    pub closed spec fn config(self) -> ConfigV {
        self.cfg@
    }

    /// Builds the segmenter for one language, compiling every pattern of the
    /// cascade once.
    pub fn new(cfg: LanguageConfig) -> (r: Segmenter)
        ensures
            r.wf(),
            r.config() == cfg@,
    {
        let pre = build_pre(&cfg.alphabets);
        let domain = build_domain();
        let post = build_post(&cfg.alphabets, cfg.question, cfg.exclam);
        Segmenter { cfg, pre, domain, post }
    }

    /// Runs the whole normalization cascade over the text.
    fn normalize(&self, text: &str) -> (r: String)
        requires
            self.wf(),
        ensures
            r@ == normalized(
                self.config().alphabets,
                self.config().question,
                self.config().exclam,
                text@,
            ),
    {
        let a = apply_all(&self.pre, String::from_str(text));
        let b = self.domain.apply(a.as_str());
        apply_all(&self.post, b)
    }

    /// Splits the text into its sentences, as `segmented` describes: every
    /// input yields a (possibly empty) sequence of sentences.
    pub fn segment(&self, text: &str) -> (r: Vec<String>)
        requires
            self.wf(),
        ensures
            r.deep_view() == segmented(self.config(), text@),
    {
        let norm = self.normalize(text);
        let cs = str_to_chars(norm.as_str());
        let cands = scan_text(&self.cfg, &cs);
        let chosen = if self.cfg.has_case {
            merge_candidates(cands)
        } else {
            cands
        };
        strings_of(chosen)
    }
}

} // verus!
