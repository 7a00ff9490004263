//! Per-language configuration: the alphabet character-class text, whether the
//! script distinguishes letter case, and the sentence-terminal punctuation
//! marks (period, question mark, exclamation mark, plus script-specific
//! extras).

use vstd::prelude::*;

verus! {

/// The mathematical view of a language configuration.
pub struct ConfigV {
    /// Body of the alphabet character class, as regex character-class text.
    pub alphabets: Seq<char>,
    /// Whether first-letter case is meaningful for this script.
    pub has_case: bool,
    /// The primary sentence-ending period character.
    pub period: char,
    /// The question mark character.
    pub question: char,
    /// The exclamation mark character.
    pub exclam: char,
    /// Further script-specific terminal punctuation, each one character.
    pub extra: Seq<char>,
}

/// A language configuration, immutable once built, shared across calls.
pub struct LanguageConfig {
    /// Body of the alphabet character class, as regex character-class text.
    pub alphabets: String,
    /// Whether first-letter case is meaningful for this script.
    pub has_case: bool,
    /// The primary sentence-ending period character.
    pub period: char,
    /// The question mark character.
    pub question: char,
    /// The exclamation mark character.
    pub exclam: char,
    /// Further script-specific terminal punctuation, each one character.
    pub extra: Vec<char>,
}

impl View for LanguageConfig {
    type V = ConfigV;

    open spec fn view(&self) -> ConfigV {
        ConfigV {
            alphabets: self.alphabets@,
            has_case: self.has_case,
            period: self.period,
            question: self.question,
            exclam: self.exclam,
            extra: self.extra@,
        }
    }
}

/// Whether `c` ends a sentence under this configuration.
pub open spec fn is_terminal(cfg: ConfigV, c: char) -> bool {
    c == cfg.period || c == cfg.question || c == cfg.exclam || cfg.extra.contains(c)
}

impl LanguageConfig {
    /// Decides sentence-terminal punctuation exactly as `is_terminal`
    /// describes it.
    pub fn terminal(&self, c: char) -> (r: bool)
        ensures
            r == is_terminal(self@, c),
    {
        if c == self.period || c == self.question || c == self.exclam {
            return true;
        }
        let mut i: usize = 0;
        while i < self.extra.len()
            invariant
                i <= self.extra@.len(),
                forall|j: int| 0 <= j < i ==> self.extra@[j] != c,
        decreases self.extra@.len() - i,
        {
            if self.extra[i] == c {
                return true;
            }
            i = i + 1;
        }
        false
    }
}

} // verus!
