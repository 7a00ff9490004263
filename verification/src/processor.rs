//! One public entry point per language: each builds that language's
//! configuration, compiles the cascade for it, and hands the text to the
//! shared engine. The configuration data mirrors, per language, the alphabet
//! ranges, the case flag and the terminal punctuation marks.

use vstd::prelude::*;

use crate::config::{ConfigV, LanguageConfig};
use crate::engine::{segmented, Segmenter};

verus! {

/// The configuration of a cased language with the default terminal
/// punctuation: period, question mark and exclamation mark, no extras.
pub open spec fn cased(alph: Seq<char>) -> ConfigV {
    ConfigV {
        alphabets: alph,
        has_case: true,
        period: '.',
        question: '?',
        exclam: '!',
        extra: Seq::empty(),
    }
}

/// Segments text under a cased default-punctuation configuration.
fn segment_cased(text: &str, alph: String) -> (r: Vec<String>)
    ensures
        r.deep_view() == segmented(cased(alph@), text@),
{
    let cfg = LanguageConfig {
        alphabets: alph,
        has_case: true,
        period: '.',
        question: '?',
        exclam: '!',
        extra: Vec::new(),
    };
    Segmenter::new(cfg).segment(text)
}

/// Splits Afrikaans text into sentences.
pub fn afrikaans(text: &str) -> (r: Vec<String>)
    ensures
        r.deep_view() == segmented(cased("a-zA-Z"@), text@),
{
    segment_cased(text, String::from_str("a-zA-Z"))
}

/// Splits Albanian text into sentences.
pub fn albanian(text: &str) -> (r: Vec<String>)
    ensures
        r.deep_view() == segmented(cased("a-zA-ZÇçËë"@), text@),
{
    segment_cased(text, String::from_str("a-zA-ZÇçËë"))
}

/// Splits Amharic text into sentences.
pub fn amharic(text: &str) -> (r: Vec<String>)
    ensures
        r.deep_view() == segmented(
            (ConfigV {
                alphabets: "a-zA-Z\u{1200}-\u{137F}"@,
                has_case: false,
                period: '\u{1362}',
                question: '\u{1367}',
                exclam: '!',
                extra: Seq::<char>::empty(),
            }),
            text@,
        ),
{
    let extra: Vec<char> = Vec::new();
    let cfg = LanguageConfig {
        alphabets: String::from_str("a-zA-Z\u{1200}-\u{137F}"),
        has_case: false,
        period: '\u{1362}',
        question: '\u{1367}',
        exclam: '!',
        extra,
    };
    Segmenter::new(cfg).segment(text)
}

/// Splits Arabic text into sentences.
pub fn arabic(text: &str) -> (r: Vec<String>)
    ensures
        r.deep_view() == segmented(
            (ConfigV {
                alphabets: "a-zA-Z\u{0600}-\u{06FF}\u{08A0}-\u{08FF}\u{0870}-\u{089F}\u{FB50}-\u{FDFF}"@,
                has_case: false,
                period: '.',
                question: '\u{061F}',
                exclam: '!',
                extra: Seq::<char>::empty().push('?').push('\u{06D4}'),
            }),
            text@,
        ),
{
    let mut extra: Vec<char> = Vec::new();
    extra.push('?');
    extra.push('\u{06D4}');
    let cfg = LanguageConfig {
        alphabets: String::from_str("a-zA-Z\u{0600}-\u{06FF}\u{08A0}-\u{08FF}\u{0870}-\u{089F}\u{FB50}-\u{FDFF}"),
        has_case: false,
        period: '.',
        question: '\u{061F}',
        exclam: '!',
        extra,
    };
    Segmenter::new(cfg).segment(text)
}

/// Splits Armenian text into sentences.
pub fn armenian(text: &str) -> (r: Vec<String>)
    ensures
        r.deep_view() == segmented(
            (ConfigV {
                alphabets: "a-zA-Z\u{0531}-\u{058F}"@,
                has_case: true,
                period: '\u{0589}',
                question: '\u{055E}',
                exclam: '\u{055C}',
                extra: Seq::<char>::empty(),
            }),
            text@,
        ),
{
    let extra: Vec<char> = Vec::new();
    let cfg = LanguageConfig {
        alphabets: String::from_str("a-zA-Z\u{0531}-\u{058F}"),
        has_case: true,
        period: '\u{0589}',
        question: '\u{055E}',
        exclam: '\u{055C}',
        extra,
    };
    Segmenter::new(cfg).segment(text)
}

/// Splits Assamese text into sentences.
pub fn assamese(text: &str) -> (r: Vec<String>)
    ensures
        r.deep_view() == segmented(
            (ConfigV {
                alphabets: "a-zA-Z\u{0980}-\u{09FF}"@,
                has_case: false,
                period: '\u{002E}',
                question: '?',
                exclam: '!',
                extra: Seq::<char>::empty().push('.').push('\u{0964}').push('\u{0965}'),
            }),
            text@,
        ),
{
    let mut extra: Vec<char> = Vec::new();
    extra.push('.');
    extra.push('\u{0964}');
    extra.push('\u{0965}');
    let cfg = LanguageConfig {
        alphabets: String::from_str("a-zA-Z\u{0980}-\u{09FF}"),
        has_case: false,
        period: '\u{002E}',
        question: '?',
        exclam: '!',
        extra,
    };
    Segmenter::new(cfg).segment(text)
}

/// Splits Azerbaijani text into sentences.
pub fn azerbaijani(text: &str) -> (r: Vec<String>)
    ensures
        r.deep_view() == segmented(cased("a-zA-ZÇŞĞÖÜİƏçşğıöüə"@), text@),
{
    segment_cased(text, String::from_str("a-zA-ZÇŞĞÖÜİƏçşğıöüə"))
}

/// Splits Balinese text into sentences.
pub fn balinese(text: &str) -> (r: Vec<String>)
    ensures
        r.deep_view() == segmented(
            (ConfigV {
                alphabets: "a-zA-Z\u{1B00}-\u{1B7F}"@,
                has_case: true,
                period: '.',
                question: '?',
                exclam: '!',
                extra: Seq::<char>::empty().push('\u{1B4F}').push('\u{1B5A}').push('\u{1B7D}').push('\u{1B7E}'),
            }),
            text@,
        ),
{
    let mut extra: Vec<char> = Vec::new();
    extra.push('\u{1B4F}');
    extra.push('\u{1B5A}');
    extra.push('\u{1B7D}');
    extra.push('\u{1B7E}');
    let cfg = LanguageConfig {
        alphabets: String::from_str("a-zA-Z\u{1B00}-\u{1B7F}"),
        has_case: true,
        period: '.',
        question: '?',
        exclam: '!',
        extra,
    };
    Segmenter::new(cfg).segment(text)
}

/// Splits Basque text into sentences.
pub fn basque(text: &str) -> (r: Vec<String>)
    ensures
        r.deep_view() == segmented(cased("a-zA-ZÑÇñç"@), text@),
{
    segment_cased(text, String::from_str("a-zA-ZÑÇñç"))
}

/// Splits Belarusian text into sentences.
pub fn belarusian(text: &str) -> (r: Vec<String>)
    ensures
        r.deep_view() == segmented(cased("a-zA-Z\u{0400}-\u{04FF}\u{0500}-\u{052F}\u{2DE0}-\u{2DFF}\u{A640}-\u{A69F}\u{1C80}-\u{1C8F}\u{1E030}-\u{1E08F}\u{1D2B}\u{1D78}\u{FE2E}\u{FE2F}"@), text@),
{
    segment_cased(text, String::from_str("a-zA-Z\u{0400}-\u{04FF}\u{0500}-\u{052F}\u{2DE0}-\u{2DFF}\u{A640}-\u{A69F}\u{1C80}-\u{1C8F}\u{1E030}-\u{1E08F}\u{1D2B}\u{1D78}\u{FE2E}\u{FE2F}"))
}

/// Splits Bengali text into sentences.
pub fn bengali(text: &str) -> (r: Vec<String>)
    ensures
        r.deep_view() == segmented(
            (ConfigV {
                alphabets: "a-zA-Z\u{0980}-\u{09FF}"@,
                has_case: false,
                period: '\u{0964}',
                question: '?',
                exclam: '!',
                extra: Seq::<char>::empty().push('.').push('\u{0965}'),
            }),
            text@,
        ),
{
    let mut extra: Vec<char> = Vec::new();
    extra.push('.');
    extra.push('\u{0965}');
    let cfg = LanguageConfig {
        alphabets: String::from_str("a-zA-Z\u{0980}-\u{09FF}"),
        has_case: false,
        period: '\u{0964}',
        question: '?',
        exclam: '!',
        extra,
    };
    Segmenter::new(cfg).segment(text)
}

/// Splits Bosnian text into sentences.
pub fn bosnian(text: &str) -> (r: Vec<String>)
    ensures
        r.deep_view() == segmented(cased("a-zA-ZČĆDžĐŠŽčćdžđšž"@), text@),
{
    segment_cased(text, String::from_str("a-zA-ZČĆDžĐŠŽčćdžđšž"))
}

/// Splits Bulgarian text into sentences.
pub fn bulgarian(text: &str) -> (r: Vec<String>)
    ensures
        r.deep_view() == segmented(cased("a-zA-Z\u{0400}-\u{04FF}\u{0500}-\u{052F}\u{2DE0}-\u{2DFF}\u{A640}-\u{A69F}\u{1C80}-\u{1C8F}\u{1E030}-\u{1E08F}\u{1D2B}\u{1D78}\u{FE2E}\u{FE2F}"@), text@),
{
    segment_cased(text, String::from_str("a-zA-Z\u{0400}-\u{04FF}\u{0500}-\u{052F}\u{2DE0}-\u{2DFF}\u{A640}-\u{A69F}\u{1C80}-\u{1C8F}\u{1E030}-\u{1E08F}\u{1D2B}\u{1D78}\u{FE2E}\u{FE2F}"))
}

/// Splits Burmese text into sentences.
pub fn burmese(text: &str) -> (r: Vec<String>)
    ensures
        r.deep_view() == segmented(
            (ConfigV {
                alphabets: "a-zA-Z\u{1000}-\u{109F}"@,
                has_case: false,
                period: '\u{104B}',
                question: '?',
                exclam: '!',
                extra: Seq::<char>::empty().push('.'),
            }),
            text@,
        ),
{
    let mut extra: Vec<char> = Vec::new();
    extra.push('.');
    let cfg = LanguageConfig {
        alphabets: String::from_str("a-zA-Z\u{1000}-\u{109F}"),
        has_case: false,
        period: '\u{104B}',
        question: '?',
        exclam: '!',
        extra,
    };
    Segmenter::new(cfg).segment(text)
}

/// Splits Catalan text into sentences.
pub fn catalan(text: &str) -> (r: Vec<String>)
    ensures
        r.deep_view() == segmented(cased("a-zA-ZÀÁÂÈÉÊÌÍÒÓÔÙÚÜÇàáâèéêìíòóôùúüç"@), text@),
{
    segment_cased(text, String::from_str("a-zA-ZÀÁÂÈÉÊÌÍÒÓÔÙÚÜÇàáâèéêìíòóôùúüç"))
}

/// Splits Cebuano text into sentences.
pub fn cebuano(text: &str) -> (r: Vec<String>)
    ensures
        r.deep_view() == segmented(cased("a-zA-ZÑñ"@), text@),
{
    segment_cased(text, String::from_str("a-zA-ZÑñ"))
}

/// Splits Chechen text into sentences.
pub fn chechen(text: &str) -> (r: Vec<String>)
    ensures
        r.deep_view() == segmented(cased("a-zA-Z\u{0400}-\u{04FF}\u{0500}-\u{052F}\u{2DE0}-\u{2DFF}\u{A640}-\u{A69F}\u{1C80}-\u{1C8F}\u{1E030}-\u{1E08F}\u{1D2B}\u{1D78}\u{FE2E}\u{FE2F}"@), text@),
{
    segment_cased(text, String::from_str("a-zA-Z\u{0400}-\u{04FF}\u{0500}-\u{052F}\u{2DE0}-\u{2DFF}\u{A640}-\u{A69F}\u{1C80}-\u{1C8F}\u{1E030}-\u{1E08F}\u{1D2B}\u{1D78}\u{FE2E}\u{FE2F}"))
}

/// Splits Chinese text into sentences.
pub fn chinese(text: &str) -> (r: Vec<String>)
    ensures
        r.deep_view() == segmented(
            (ConfigV {
                alphabets: "a-zA-Z\u{4E00}-\u{9FFF}"@,
                has_case: false,
                period: '。',
                question: '？',
                exclam: '！',
                extra: Seq::<char>::empty().push('!').push('?'),
            }),
            text@,
        ),
{
    let mut extra: Vec<char> = Vec::new();
    extra.push('!');
    extra.push('?');
    let cfg = LanguageConfig {
        alphabets: String::from_str("a-zA-Z\u{4E00}-\u{9FFF}"),
        has_case: false,
        period: '。',
        question: '？',
        exclam: '！',
        extra,
    };
    Segmenter::new(cfg).segment(text)
}

/// Splits Creole text into sentences.
pub fn creole(text: &str) -> (r: Vec<String>)
    ensures
        r.deep_view() == segmented(cased("a-zA-ZÈèÒò"@), text@),
{
    segment_cased(text, String::from_str("a-zA-ZÈèÒò"))
}

/// Splits Croatian text into sentences.
pub fn croatian(text: &str) -> (r: Vec<String>)
    ensures
        r.deep_view() == segmented(cased("a-zA-ZČĆŽŠĐčćžšđa-zA-Z\u{0400}-\u{04FF}\u{0500}-\u{052F}\u{2DE0}-\u{2DFF}\u{A640}-\u{A69F}\u{1C80}-\u{1C8F}\u{1E030}-\u{1E08F}\u{1D2B}\u{1D78}\u{FE2E}\u{FE2F}"@), text@),
{
    segment_cased(text, String::from_str("a-zA-ZČĆŽŠĐčćžšđa-zA-Z\u{0400}-\u{04FF}\u{0500}-\u{052F}\u{2DE0}-\u{2DFF}\u{A640}-\u{A69F}\u{1C80}-\u{1C8F}\u{1E030}-\u{1E08F}\u{1D2B}\u{1D78}\u{FE2E}\u{FE2F}"))
}

/// Splits Czech text into sentences.
pub fn czech(text: &str) -> (r: Vec<String>)
    ensures
        r.deep_view() == segmented(cased("a-zA-ZĚŠČŘŽÝÁÍÉÚŮÓěščřžýáíéúůó"@), text@),
{
    segment_cased(text, String::from_str("a-zA-ZĚŠČŘŽÝÁÍÉÚŮÓěščřžýáíéúůó"))
}

/// Splits Danish text into sentences.
pub fn danish(text: &str) -> (r: Vec<String>)
    ensures
        r.deep_view() == segmented(cased("a-zA-ZØÆÅøæå"@), text@),
{
    segment_cased(text, String::from_str("a-zA-ZØÆÅøæå"))
}

/// Splits Dinka text into sentences.
pub fn dinka(text: &str) -> (r: Vec<String>)
    ensures
        r.deep_view() == segmented(cased("a-zA-ZÄäËëƐ̈ɛ̈ƔɣÏïŊŋÖöƆɔƆ̈ɔ̈Üü"@), text@),
{
    segment_cased(text, String::from_str("a-zA-ZÄäËëƐ̈ɛ̈ƔɣÏïŊŋÖöƆɔƆ̈ɔ̈Üü"))
}

/// Splits Dutch text into sentences.
pub fn dutch(text: &str) -> (r: Vec<String>)
    ensures
        r.deep_view() == segmented(cased("a-zA-ZÄËÏÖÜÇÀÈÌÒÙäëïöüçàèìòù"@), text@),
{
    segment_cased(text, String::from_str("a-zA-ZÄËÏÖÜÇÀÈÌÒÙäëïöüçàèìòù"))
}

/// Splits English text into sentences.
pub fn english(text: &str) -> (r: Vec<String>)
    ensures
        r.deep_view() == segmented(cased("a-zA-Z"@), text@),
{
    segment_cased(text, String::from_str("a-zA-Z"))
}

/// Splits Esperanto text into sentences.
pub fn esperanto(text: &str) -> (r: Vec<String>)
    ensures
        r.deep_view() == segmented(cased("a-zA-ZĈĉĜĝĤĥĴĵŜŝŬŭ"@), text@),
{
    segment_cased(text, String::from_str("a-zA-ZĈĉĜĝĤĥĴĵŜŝŬŭ"))
}

/// Splits Estonian text into sentences.
pub fn estonian(text: &str) -> (r: Vec<String>)
    ensures
        r.deep_view() == segmented(cased("a-zA-ZŠŽÕÄÖÜšžõäöü"@), text@),
{
    segment_cased(text, String::from_str("a-zA-ZŠŽÕÄÖÜšžõäöü"))
}

/// Splits Finnish text into sentences.
pub fn finnish(text: &str) -> (r: Vec<String>)
    ensures
        r.deep_view() == segmented(cased("a-zA-ZÄÖÅäöå"@), text@),
{
    segment_cased(text, String::from_str("a-zA-ZÄÖÅäöå"))
}

/// Splits French text into sentences.
pub fn french(text: &str) -> (r: Vec<String>)
    ensures
        r.deep_view() == segmented(cased("a-zA-ZÀÂÆÇÉÈÊËÎÏÔŒÙÛÜŸàâæçéèêëîïôœùûüÿ"@), text@),
{
    segment_cased(text, String::from_str("a-zA-ZÀÂÆÇÉÈÊËÎÏÔŒÙÛÜŸàâæçéèêëîïôœùûüÿ"))
}

/// Splits Galician text into sentences.
pub fn galician(text: &str) -> (r: Vec<String>)
    ensures
        r.deep_view() == segmented(cased("a-zA-ZÑñ"@), text@),
{
    segment_cased(text, String::from_str("a-zA-ZÑñ"))
}

/// Splits Ganda text into sentences.
pub fn ganda(text: &str) -> (r: Vec<String>)
    ensures
        r.deep_view() == segmented(cased("a-zA-ZÀÈÙÁÉÍÓÚàèùáéíóú"@), text@),
{
    segment_cased(text, String::from_str("a-zA-ZÀÈÙÁÉÍÓÚàèùáéíóú"))
}

/// Splits Georgian text into sentences.
pub fn georgian(text: &str) -> (r: Vec<String>)
    ensures
        r.deep_view() == segmented(
            (ConfigV {
                alphabets: "a-zA-Z\u{10A0}-\u{10FF}"@,
                has_case: false,
                period: '.',
                question: '?',
                exclam: '!',
                extra: Seq::<char>::empty(),
            }),
            text@,
        ),
{
    let extra: Vec<char> = Vec::new();
    let cfg = LanguageConfig {
        alphabets: String::from_str("a-zA-Z\u{10A0}-\u{10FF}"),
        has_case: false,
        period: '.',
        question: '?',
        exclam: '!',
        extra,
    };
    Segmenter::new(cfg).segment(text)
}

/// Splits German text into sentences.
pub fn german(text: &str) -> (r: Vec<String>)
    ensures
        r.deep_view() == segmented(cased("a-zA-ZÄÖÜẞäöüß"@), text@),
{
    segment_cased(text, String::from_str("a-zA-ZÄÖÜẞäöüß"))
}

/// Splits Greek text into sentences.
pub fn greek(text: &str) -> (r: Vec<String>)
    ensures
        r.deep_view() == segmented(cased("a-zA-Z\u{0370}-\u{03FF}\u{1F00}-\u{1FFF}\u{1D00}-\u{1D7F}\u{1D80}-\u{1DBF}\u{2100}-\u{214F}"@), text@),
{
    segment_cased(text, String::from_str("a-zA-Z\u{0370}-\u{03FF}\u{1F00}-\u{1FFF}\u{1D00}-\u{1D7F}\u{1D80}-\u{1DBF}\u{2100}-\u{214F}"))
}

/// Splits Gujarati text into sentences.
pub fn gujarati(text: &str) -> (r: Vec<String>)
    ensures
        r.deep_view() == segmented(
            (ConfigV {
                alphabets: "a-zA-Z\u{0A80}-\u{0AFF}"@,
                has_case: false,
                period: '.',
                question: '?',
                exclam: '!',
                extra: Seq::<char>::empty(),
            }),
            text@,
        ),
{
    let extra: Vec<char> = Vec::new();
    let cfg = LanguageConfig {
        alphabets: String::from_str("a-zA-Z\u{0A80}-\u{0AFF}"),
        has_case: false,
        period: '.',
        question: '?',
        exclam: '!',
        extra,
    };
    Segmenter::new(cfg).segment(text)
}

/// Splits Hausa text into sentences.
pub fn hausa(text: &str) -> (r: Vec<String>)
    ensures
        r.deep_view() == segmented(cased("a-zA-ZƁɓƊɗƘƙƳƴ"@), text@),
{
    segment_cased(text, String::from_str("a-zA-ZƁɓƊɗƘƙƳƴ"))
}

/// Splits Hebrew text into sentences.
pub fn hebrew(text: &str) -> (r: Vec<String>)
    ensures
        r.deep_view() == segmented(
            (ConfigV {
                alphabets: "a-zA-Z\u{0590}-\u{05FF}"@,
                has_case: false,
                period: '.',
                question: '?',
                exclam: '!',
                extra: Seq::<char>::empty(),
            }),
            text@,
        ),
{
    let extra: Vec<char> = Vec::new();
    let cfg = LanguageConfig {
        alphabets: String::from_str("a-zA-Z\u{0590}-\u{05FF}"),
        has_case: false,
        period: '.',
        question: '?',
        exclam: '!',
        extra,
    };
    Segmenter::new(cfg).segment(text)
}

/// Splits Hindi text into sentences.
pub fn hindi(text: &str) -> (r: Vec<String>)
    ensures
        r.deep_view() == segmented(
            (ConfigV {
                alphabets: "a-zA-Z\u{0900}-\u{097F}\u{A8E0}-\u{A8FF}\u{11B00}-\u{11B5F}\u{1CD0}-\u{1CFF}"@,
                has_case: false,
                period: '\u{0964}',
                question: '?',
                exclam: '!',
                extra: Seq::<char>::empty().push('.').push('\u{0965}'),
            }),
            text@,
        ),
{
    let mut extra: Vec<char> = Vec::new();
    extra.push('.');
    extra.push('\u{0965}');
    let cfg = LanguageConfig {
        alphabets: String::from_str("a-zA-Z\u{0900}-\u{097F}\u{A8E0}-\u{A8FF}\u{11B00}-\u{11B5F}\u{1CD0}-\u{1CFF}"),
        has_case: false,
        period: '\u{0964}',
        question: '?',
        exclam: '!',
        extra,
    };
    Segmenter::new(cfg).segment(text)
}

/// Splits Hungarian text into sentences.
pub fn hungarian(text: &str) -> (r: Vec<String>)
    ensures
        r.deep_view() == segmented(cased("a-zA-ZÁÉÍÓÖŐÚÜáéíóöőúü"@), text@),
{
    segment_cased(text, String::from_str("a-zA-ZÁÉÍÓÖŐÚÜáéíóöőúü"))
}

/// Splits Icelandic text into sentences.
pub fn icelandic(text: &str) -> (r: Vec<String>)
    ensures
        r.deep_view() == segmented(cased("a-zA-ZÁáÉéÍíÓóÚúÝýÞþÆæÖöÐð"@), text@),
{
    segment_cased(text, String::from_str("a-zA-ZÁáÉéÍíÓóÚúÝýÞþÆæÖöÐð"))
}

/// Splits Igbo text into sentences.
pub fn igbo(text: &str) -> (r: Vec<String>)
    ensures
        r.deep_view() == segmented(cased("a-zA-ZỊṄỌỤịṅọụ"@), text@),
{
    segment_cased(text, String::from_str("a-zA-ZỊṄỌỤịṅọụ"))
}

/// Splits Ido text into sentences.
pub fn ido(text: &str) -> (r: Vec<String>)
    ensures
        r.deep_view() == segmented(cased("a-zA-Z"@), text@),
{
    segment_cased(text, String::from_str("a-zA-Z"))
}

/// Splits Indonesian text into sentences.
pub fn indonesian(text: &str) -> (r: Vec<String>)
    ensures
        r.deep_view() == segmented(cased("A-Za-zÁáÉéÍíÓóÚúŃńÇçĐđ"@), text@),
{
    segment_cased(text, String::from_str("A-Za-zÁáÉéÍíÓóÚúŃńÇçĐđ"))
}

/// Splits Interlingua text into sentences.
pub fn interlingua(text: &str) -> (r: Vec<String>)
    ensures
        r.deep_view() == segmented(cased("a-zA-Z"@), text@),
{
    segment_cased(text, String::from_str("a-zA-Z"))
}

/// Splits Irish text into sentences.
pub fn irish(text: &str) -> (r: Vec<String>)
    ensures
        r.deep_view() == segmented(cased("a-zA-ZÁáÉéÍíÓóÚúÇç"@), text@),
{
    segment_cased(text, String::from_str("a-zA-ZÁáÉéÍíÓóÚúÇç"))
}

/// Splits Italian text into sentences.
pub fn italian(text: &str) -> (r: Vec<String>)
    ensures
        r.deep_view() == segmented(cased("a-zA-ZÀÈÉÌÒÙàèéìòù"@), text@),
{
    segment_cased(text, String::from_str("a-zA-ZÀÈÉÌÒÙàèéìòù"))
}

/// Splits Japanese text into sentences.
pub fn japanese(text: &str) -> (r: Vec<String>)
    ensures
        r.deep_view() == segmented(
            (ConfigV {
                alphabets: "a-zA-Z\u{3040}-\u{309F}\u{30A0}-\u{30FF}\u{4000}-\u{9FFF}"@,
                has_case: false,
                period: '。',
                question: '？',
                exclam: '！',
                extra: Seq::<char>::empty().push('.'),
            }),
            text@,
        ),
{
    let mut extra: Vec<char> = Vec::new();
    extra.push('.');
    let cfg = LanguageConfig {
        alphabets: String::from_str("a-zA-Z\u{3040}-\u{309F}\u{30A0}-\u{30FF}\u{4000}-\u{9FFF}"),
        has_case: false,
        period: '。',
        question: '？',
        exclam: '！',
        extra,
    };
    Segmenter::new(cfg).segment(text)
}

/// Splits Javanese text into sentences.
pub fn javanese(text: &str) -> (r: Vec<String>)
    ensures
        r.deep_view() == segmented(cased("a-zA-ZÅåÉéĚěÓóÚú\u{A980}-\u{A9DF}"@), text@),
{
    segment_cased(text, String::from_str("a-zA-ZÅåÉéĚěÓóÚú\u{A980}-\u{A9DF}"))
}

/// Splits Kannada text into sentences.
pub fn kannada(text: &str) -> (r: Vec<String>)
    ensures
        r.deep_view() == segmented(
            (ConfigV {
                alphabets: "a-zA-Z\u{0C80}-\u{0CFF}"@,
                has_case: false,
                period: '.',
                question: '?',
                exclam: '!',
                extra: Seq::<char>::empty(),
            }),
            text@,
        ),
{
    let extra: Vec<char> = Vec::new();
    let cfg = LanguageConfig {
        alphabets: String::from_str("a-zA-Z\u{0C80}-\u{0CFF}"),
        has_case: false,
        period: '.',
        question: '?',
        exclam: '!',
        extra,
    };
    Segmenter::new(cfg).segment(text)
}

/// Splits Kashmiri text into sentences.
pub fn kashmiri(text: &str) -> (r: Vec<String>)
    ensures
        r.deep_view() == segmented(
            (ConfigV {
                alphabets: "a-zA-Z\u{0600}-\u{06FF}\u{08A0}-\u{08FF}\u{0870}-\u{089F}\u{FB50}-\u{FDFF}\u{0900}-\u{097F}\u{A8E0}-\u{A8FF}\u{11B00}-\u{11B5F}\u{1CD0}-\u{1CFF}\u{11180}-\u{111DF}"@,
                has_case: false,
                period: '\u{111C5}',
                question: '?',
                exclam: '!',
                extra: Seq::<char>::empty().push('.').push('\u{06D4}').push('\u{0964}').push('\u{0965}').push('\u{111C6}').push('\u{111C8}'),
            }),
            text@,
        ),
{
    let mut extra: Vec<char> = Vec::new();
    extra.push('.');
    extra.push('\u{06D4}');
    extra.push('\u{0964}');
    extra.push('\u{0965}');
    extra.push('\u{111C6}');
    extra.push('\u{111C8}');
    let cfg = LanguageConfig {
        alphabets: String::from_str("a-zA-Z\u{0600}-\u{06FF}\u{08A0}-\u{08FF}\u{0870}-\u{089F}\u{FB50}-\u{FDFF}\u{0900}-\u{097F}\u{A8E0}-\u{A8FF}\u{11B00}-\u{11B5F}\u{1CD0}-\u{1CFF}\u{11180}-\u{111DF}"),
        has_case: false,
        period: '\u{111C5}',
        question: '?',
        exclam: '!',
        extra,
    };
    Segmenter::new(cfg).segment(text)
}

/// Splits Kazakh text into sentences.
pub fn kazakh(text: &str) -> (r: Vec<String>)
    ensures
        r.deep_view() == segmented(cased("A-Za-zÁáÀàÂâÄäÇçEéÍíOóŞşUú\u{0400}-\u{04FF}\u{0500}-\u{052F}\u{2DE0}-\u{2DFF}\u{A640}-\u{A69F}\u{1C80}-\u{1C8F}\u{1E030}-\u{1E08F}\u{1D2B}\u{1D78}\u{FE2E}\u{FE2F}"@), text@),
{
    segment_cased(text, String::from_str("A-Za-zÁáÀàÂâÄäÇçEéÍíOóŞşUú\u{0400}-\u{04FF}\u{0500}-\u{052F}\u{2DE0}-\u{2DFF}\u{A640}-\u{A69F}\u{1C80}-\u{1C8F}\u{1E030}-\u{1E08F}\u{1D2B}\u{1D78}\u{FE2E}\u{FE2F}"))
}

/// Splits Khmer text into sentences.
pub fn khmer(text: &str) -> (r: Vec<String>)
    ensures
        r.deep_view() == segmented(
            (ConfigV {
                alphabets: "A-Za-z\u{1780}-\u{17FF}"@,
                has_case: false,
                period: '\u{17D4}',
                question: '?',
                exclam: '\u{17D5}',
                extra: Seq::<char>::empty(),
            }),
            text@,
        ),
{
    let extra: Vec<char> = Vec::new();
    let cfg = LanguageConfig {
        alphabets: String::from_str("A-Za-z\u{1780}-\u{17FF}"),
        has_case: false,
        period: '\u{17D4}',
        question: '?',
        exclam: '\u{17D5}',
        extra,
    };
    Segmenter::new(cfg).segment(text)
}

/// Splits Korean text into sentences.
pub fn korean(text: &str) -> (r: Vec<String>)
    ensures
        r.deep_view() == segmented(
            (ConfigV {
                alphabets: "a-zA-Z\u{AC00}-\u{D7A3}\u{4000}-\u{9FFF}"@,
                has_case: false,
                period: '.',
                question: '?',
                exclam: '!',
                extra: Seq::<char>::empty(),
            }),
            text@,
        ),
{
    let extra: Vec<char> = Vec::new();
    let cfg = LanguageConfig {
        alphabets: String::from_str("a-zA-Z\u{AC00}-\u{D7A3}\u{4000}-\u{9FFF}"),
        has_case: false,
        period: '.',
        question: '?',
        exclam: '!',
        extra,
    };
    Segmenter::new(cfg).segment(text)
}

/// Splits Kurdish text into sentences.
pub fn kurdish(text: &str) -> (r: Vec<String>)
    ensures
        r.deep_view() == segmented(cased("a-zA-ZÇÊÎŞÛçêîşû"@), text@),
{
    segment_cased(text, String::from_str("a-zA-ZÇÊÎŞÛçêîşû"))
}

/// Splits Kyrgyz text into sentences.
pub fn kyrgyz(text: &str) -> (r: Vec<String>)
    ensures
        r.deep_view() == segmented(cased("a-zA-Z\u{0400}-\u{04FF}\u{0500}-\u{052F}\u{2DE0}-\u{2DFF}\u{A640}-\u{A69F}\u{1C80}-\u{1C8F}\u{1E030}-\u{1E08F}\u{1D2B}\u{1D78}\u{FE2E}\u{FE2F}"@), text@),
{
    segment_cased(text, String::from_str("a-zA-Z\u{0400}-\u{04FF}\u{0500}-\u{052F}\u{2DE0}-\u{2DFF}\u{A640}-\u{A69F}\u{1C80}-\u{1C8F}\u{1E030}-\u{1E08F}\u{1D2B}\u{1D78}\u{FE2E}\u{FE2F}"))
}

/// Splits Lao text into sentences.
pub fn lao(text: &str) -> (r: Vec<String>)
    ensures
        r.deep_view() == segmented(
            (ConfigV {
                alphabets: "a-zA-Z\u{0E80}-\u{0EFF}"@,
                has_case: false,
                period: '.',
                question: '?',
                exclam: '!',
                extra: Seq::<char>::empty(),
            }),
            text@,
        ),
{
    let extra: Vec<char> = Vec::new();
    let cfg = LanguageConfig {
        alphabets: String::from_str("a-zA-Z\u{0E80}-\u{0EFF}"),
        has_case: false,
        period: '.',
        question: '?',
        exclam: '!',
        extra,
    };
    Segmenter::new(cfg).segment(text)
}

/// Splits Latin text into sentences.
pub fn latin(text: &str) -> (r: Vec<String>)
    ensures
        r.deep_view() == segmented(cased("a-zA-Z"@), text@),
{
    segment_cased(text, String::from_str("a-zA-Z"))
}

/// Splits Latvian text into sentences.
pub fn latvian(text: &str) -> (r: Vec<String>)
    ensures
        r.deep_view() == segmented(cased("a-zA-ZĀČĒĢĪĶĻŅŌŖŠŪŽāčēģīķļņōŗšūž"@), text@),
{
    segment_cased(text, String::from_str("a-zA-ZĀČĒĢĪĶĻŅŌŖŠŪŽāčēģīķļņōŗšūž"))
}

/// Splits Lithuanian text into sentences.
pub fn lithuanian(text: &str) -> (r: Vec<String>)
    ensures
        r.deep_view() == segmented(cased("a-zA-ZĄČĘĖĮŠŲŪŽąčęėįšųūž"@), text@),
{
    segment_cased(text, String::from_str("a-zA-ZĄČĘĖĮŠŲŪŽąčęėįšųūž"))
}

/// Splits Macedonian text into sentences.
pub fn macedonian(text: &str) -> (r: Vec<String>)
    ensures
        r.deep_view() == segmented(cased("a-zA-Z\u{0400}-\u{04FF}\u{0500}-\u{052F}\u{2DE0}-\u{2DFF}\u{A640}-\u{A69F}\u{1C80}-\u{1C8F}\u{1E030}-\u{1E08F}\u{1D2B}\u{1D78}\u{FE2E}\u{FE2F}"@), text@),
{
    segment_cased(text, String::from_str("a-zA-Z\u{0400}-\u{04FF}\u{0500}-\u{052F}\u{2DE0}-\u{2DFF}\u{A640}-\u{A69F}\u{1C80}-\u{1C8F}\u{1E030}-\u{1E08F}\u{1D2B}\u{1D78}\u{FE2E}\u{FE2F}"))
}

/// Splits Malagasy text into sentences.
pub fn malagasy(text: &str) -> (r: Vec<String>)
    ensures
        r.deep_view() == segmented(cased("a-zA-Z"@), text@),
{
    segment_cased(text, String::from_str("a-zA-Z"))
}

/// Splits Malay text into sentences.
pub fn malay(text: &str) -> (r: Vec<String>)
    ensures
        r.deep_view() == segmented(cased("a-zA-ZÁáÉéÍíÓóÚúŃńÇçĐđ"@), text@),
{
    segment_cased(text, String::from_str("a-zA-ZÁáÉéÍíÓóÚúŃńÇçĐđ"))
}

/// Splits Malayalam text into sentences.
pub fn malayalam(text: &str) -> (r: Vec<String>)
    ensures
        r.deep_view() == segmented(
            (ConfigV {
                alphabets: "a-zA-Z\u{0D00}-\u{0D7F}"@,
                has_case: false,
                period: '.',
                question: '?',
                exclam: '!',
                extra: Seq::<char>::empty(),
            }),
            text@,
        ),
{
    let extra: Vec<char> = Vec::new();
    let cfg = LanguageConfig {
        alphabets: String::from_str("a-zA-Z\u{0D00}-\u{0D7F}"),
        has_case: false,
        period: '.',
        question: '?',
        exclam: '!',
        extra,
    };
    Segmenter::new(cfg).segment(text)
}

/// Splits Maltese text into sentences.
pub fn maltese(text: &str) -> (r: Vec<String>)
    ensures
        r.deep_view() == segmented(cased("a-zA-ZĊċĠġĦħŻż"@), text@),
{
    segment_cased(text, String::from_str("a-zA-ZĊċĠġĦħŻż"))
}

/// Splits Manipuri text into sentences.
pub fn manipuri(text: &str) -> (r: Vec<String>)
    ensures
        r.deep_view() == segmented(
            (ConfigV {
                alphabets: "a-zA-Z\u{ABC0}-\u{ABFF}"@,
                has_case: true,
                period: '\u{ABEB}',
                question: '?',
                exclam: '!',
                extra: Seq::<char>::empty().push('.'),
            }),
            text@,
        ),
{
    let mut extra: Vec<char> = Vec::new();
    extra.push('.');
    let cfg = LanguageConfig {
        alphabets: String::from_str("a-zA-Z\u{ABC0}-\u{ABFF}"),
        has_case: true,
        period: '\u{ABEB}',
        question: '?',
        exclam: '!',
        extra,
    };
    Segmenter::new(cfg).segment(text)
}

/// Splits Maori text into sentences.
pub fn maori(text: &str) -> (r: Vec<String>)
    ensures
        r.deep_view() == segmented(cased("a-zA-ZĀāĒēĪīŌōŪū"@), text@),
{
    segment_cased(text, String::from_str("a-zA-ZĀāĒēĪīŌōŪū"))
}

/// Splits Marathi text into sentences.
pub fn marathi(text: &str) -> (r: Vec<String>)
    ensures
        r.deep_view() == segmented(
            (ConfigV {
                alphabets: "a-zA-Z\u{0900}-\u{097F}\u{A8E0}-\u{A8FF}\u{11B00}-\u{11B5F}\u{1CD0}-\u{1CFF}"@,
                has_case: false,
                period: '\u{0964}',
                question: '?',
                exclam: '!',
                extra: Seq::<char>::empty().push('.').push('\u{0965}'),
            }),
            text@,
        ),
{
    let mut extra: Vec<char> = Vec::new();
    extra.push('.');
    extra.push('\u{0965}');
    let cfg = LanguageConfig {
        alphabets: String::from_str("a-zA-Z\u{0900}-\u{097F}\u{A8E0}-\u{A8FF}\u{11B00}-\u{11B5F}\u{1CD0}-\u{1CFF}"),
        has_case: false,
        period: '\u{0964}',
        question: '?',
        exclam: '!',
        extra,
    };
    Segmenter::new(cfg).segment(text)
}

/// Splits Mongolian text into sentences.
pub fn mongolian(text: &str) -> (r: Vec<String>)
    ensures
        r.deep_view() == segmented(cased("a-zA-Z\u{0400}-\u{04FF}\u{0500}-\u{052F}\u{2DE0}-\u{2DFF}\u{A640}-\u{A69F}\u{1C80}-\u{1C8F}\u{1E030}-\u{1E08F}\u{1D2B}\u{1D78}\u{FE2E}\u{FE2F}"@), text@),
{
    segment_cased(text, String::from_str("a-zA-Z\u{0400}-\u{04FF}\u{0500}-\u{052F}\u{2DE0}-\u{2DFF}\u{A640}-\u{A69F}\u{1C80}-\u{1C8F}\u{1E030}-\u{1E08F}\u{1D2B}\u{1D78}\u{FE2E}\u{FE2F}"))
}

/// Splits Nepali text into sentences.
pub fn nepali(text: &str) -> (r: Vec<String>)
    ensures
        r.deep_view() == segmented(
            (ConfigV {
                alphabets: "a-zA-Z\u{0900}-\u{097F}\u{A8E0}-\u{A8FF}\u{11B00}-\u{11B5F}\u{1CD0}-\u{1CFF}"@,
                has_case: false,
                period: '\u{0964}',
                question: '?',
                exclam: '!',
                extra: Seq::<char>::empty().push('.').push('\u{0965}'),
            }),
            text@,
        ),
{
    let mut extra: Vec<char> = Vec::new();
    extra.push('.');
    extra.push('\u{0965}');
    let cfg = LanguageConfig {
        alphabets: String::from_str("a-zA-Z\u{0900}-\u{097F}\u{A8E0}-\u{A8FF}\u{11B00}-\u{11B5F}\u{1CD0}-\u{1CFF}"),
        has_case: false,
        period: '\u{0964}',
        question: '?',
        exclam: '!',
        extra,
    };
    Segmenter::new(cfg).segment(text)
}

/// Splits Norwegian text into sentences.
pub fn norwegian(text: &str) -> (r: Vec<String>)
    ensures
        r.deep_view() == segmented(cased("a-zA-ZÆØÅæøå"@), text@),
{
    segment_cased(text, String::from_str("a-zA-ZÆØÅæøå"))
}

/// Splits Oriya text into sentences.
pub fn oriya(text: &str) -> (r: Vec<String>)
    ensures
        r.deep_view() == segmented(
            (ConfigV {
                alphabets: "a-zA-Z\u{0B00}-\u{0B7F}"@,
                has_case: false,
                period: '\u{0964}',
                question: '?',
                exclam: '!',
                extra: Seq::<char>::empty().push('.').push('\u{0965}'),
            }),
            text@,
        ),
{
    let mut extra: Vec<char> = Vec::new();
    extra.push('.');
    extra.push('\u{0965}');
    let cfg = LanguageConfig {
        alphabets: String::from_str("a-zA-Z\u{0B00}-\u{0B7F}"),
        has_case: false,
        period: '\u{0964}',
        question: '?',
        exclam: '!',
        extra,
    };
    Segmenter::new(cfg).segment(text)
}

/// Splits Ossetian text into sentences.
pub fn ossetian(text: &str) -> (r: Vec<String>)
    ensures
        r.deep_view() == segmented(cased("a-zA-Z\u{0400}-\u{04FF}\u{0500}-\u{052F}\u{2DE0}-\u{2DFF}\u{A640}-\u{A69F}\u{1C80}-\u{1C8F}\u{1E030}-\u{1E08F}\u{1D2B}\u{1D78}\u{FE2E}\u{FE2F}"@), text@),
{
    segment_cased(text, String::from_str("a-zA-Z\u{0400}-\u{04FF}\u{0500}-\u{052F}\u{2DE0}-\u{2DFF}\u{A640}-\u{A69F}\u{1C80}-\u{1C8F}\u{1E030}-\u{1E08F}\u{1D2B}\u{1D78}\u{FE2E}\u{FE2F}"))
}

/// Splits Pashto text into sentences.
pub fn pashto(text: &str) -> (r: Vec<String>)
    ensures
        r.deep_view() == segmented(
            (ConfigV {
                alphabets: "a-zA-Z\u{0600}-\u{06FF}\u{08A0}-\u{08FF}\u{0870}-\u{089F}\u{FB50}-\u{FDFF}"@,
                has_case: false,
                period: '\u{06D4}',
                question: '\u{061F}',
                exclam: '!',
                extra: Seq::<char>::empty().push('.'),
            }),
            text@,
        ),
{
    let mut extra: Vec<char> = Vec::new();
    extra.push('.');
    let cfg = LanguageConfig {
        alphabets: String::from_str("a-zA-Z\u{0600}-\u{06FF}\u{08A0}-\u{08FF}\u{0870}-\u{089F}\u{FB50}-\u{FDFF}"),
        has_case: false,
        period: '\u{06D4}',
        question: '\u{061F}',
        exclam: '!',
        extra,
    };
    Segmenter::new(cfg).segment(text)
}

/// Splits Persian text into sentences.
pub fn persian(text: &str) -> (r: Vec<String>)
    ensures
        r.deep_view() == segmented(
            (ConfigV {
                alphabets: "a-zA-Z\u{0600}-\u{06FF}\u{08A0}-\u{08FF}\u{0870}-\u{089F}\u{FB50}-\u{FDFF}"@,
                has_case: false,
                period: '.',
                question: '\u{061F}',
                exclam: '!',
                extra: Seq::<char>::empty().push('\u{06D4}'),
            }),
            text@,
        ),
{
    let mut extra: Vec<char> = Vec::new();
    extra.push('\u{06D4}');
    let cfg = LanguageConfig {
        alphabets: String::from_str("a-zA-Z\u{0600}-\u{06FF}\u{08A0}-\u{08FF}\u{0870}-\u{089F}\u{FB50}-\u{FDFF}"),
        has_case: false,
        period: '.',
        question: '\u{061F}',
        exclam: '!',
        extra,
    };
    Segmenter::new(cfg).segment(text)
}

/// Splits Polish text into sentences.
pub fn polish(text: &str) -> (r: Vec<String>)
    ensures
        r.deep_view() == segmented(cased("a-zA-ZĄĆĘŁŃÓŚŹŻąćęłńóśźż"@), text@),
{
    segment_cased(text, String::from_str("a-zA-ZĄĆĘŁŃÓŚŹŻąćęłńóśźż"))
}

/// Splits Portuguese text into sentences.
pub fn portuguese(text: &str) -> (r: Vec<String>)
    ensures
        r.deep_view() == segmented(cased("a-zA-ZÀÁÂÃÄÇÉÊËÍÎÏÓÔÕÖÚÛÜàáâãäçéêëíîïóôõöúûü"@), text@),
{
    segment_cased(text, String::from_str("a-zA-ZÀÁÂÃÄÇÉÊËÍÎÏÓÔÕÖÚÛÜàáâãäçéêëíîïóôõöúûü"))
}

/// Splits Punjabi Eastern text into sentences.
pub fn punjabi_eastern(text: &str) -> (r: Vec<String>)
    ensures
        r.deep_view() == segmented(
            (ConfigV {
                alphabets: "a-zA-Z\u{0A00}-\u{0A7F}"@,
                has_case: false,
                period: '\u{0964}',
                question: '?',
                exclam: '!',
                extra: Seq::<char>::empty().push('\u{061F}').push('\u{0965}').push('.'),
            }),
            text@,
        ),
{
    let mut extra: Vec<char> = Vec::new();
    extra.push('\u{061F}');
    extra.push('\u{0965}');
    extra.push('.');
    let cfg = LanguageConfig {
        alphabets: String::from_str("a-zA-Z\u{0A00}-\u{0A7F}"),
        has_case: false,
        period: '\u{0964}',
        question: '?',
        exclam: '!',
        extra,
    };
    Segmenter::new(cfg).segment(text)
}

/// Splits Punjabi Western text into sentences.
pub fn punjabi_western(text: &str) -> (r: Vec<String>)
    ensures
        r.deep_view() == segmented(
            (ConfigV {
                alphabets: "a-zA-Z\u{0600}-\u{06FF}\u{08A0}-\u{08FF}\u{0870}-\u{089F}\u{FB50}-\u{FDFF}"@,
                has_case: false,
                period: '.',
                question: '\u{061F}',
                exclam: '!',
                extra: Seq::<char>::empty().push('?').push('\u{06D4}'),
            }),
            text@,
        ),
{
    let mut extra: Vec<char> = Vec::new();
    extra.push('?');
    extra.push('\u{06D4}');
    let cfg = LanguageConfig {
        alphabets: String::from_str("a-zA-Z\u{0600}-\u{06FF}\u{08A0}-\u{08FF}\u{0870}-\u{089F}\u{FB50}-\u{FDFF}"),
        has_case: false,
        period: '.',
        question: '\u{061F}',
        exclam: '!',
        extra,
    };
    Segmenter::new(cfg).segment(text)
}

/// Splits Romanian text into sentences.
pub fn romanian(text: &str) -> (r: Vec<String>)
    ensures
        r.deep_view() == segmented(cased("a-zA-ZĂÂÎȘȚăâîșț"@), text@),
{
    segment_cased(text, String::from_str("a-zA-ZĂÂÎȘȚăâîșț"))
}

/// Splits Russian text into sentences.
pub fn russian(text: &str) -> (r: Vec<String>)
    ensures
        r.deep_view() == segmented(cased("a-zA-Z\u{0400}-\u{04FF}\u{0500}-\u{052F}\u{2DE0}-\u{2DFF}\u{A640}-\u{A69F}\u{1C80}-\u{1C8F}\u{1E030}-\u{1E08F}\u{1D2B}\u{1D78}\u{FE2E}\u{FE2F}"@), text@),
{
    segment_cased(text, String::from_str("a-zA-Z\u{0400}-\u{04FF}\u{0500}-\u{052F}\u{2DE0}-\u{2DFF}\u{A640}-\u{A69F}\u{1C80}-\u{1C8F}\u{1E030}-\u{1E08F}\u{1D2B}\u{1D78}\u{FE2E}\u{FE2F}"))
}

/// Splits Sanskrit text into sentences.
pub fn sanskrit(text: &str) -> (r: Vec<String>)
    ensures
        r.deep_view() == segmented(
            (ConfigV {
                alphabets: "a-zA-Z\u{0900}-\u{097F}\u{A8E0}-\u{A8FF}\u{11B00}-\u{11B5F}\u{1CD0}-\u{1CFF}"@,
                has_case: false,
                period: '\u{0964}',
                question: '?',
                exclam: '!',
                extra: Seq::<char>::empty().push('.').push('\u{0965}'),
            }),
            text@,
        ),
{
    let mut extra: Vec<char> = Vec::new();
    extra.push('.');
    extra.push('\u{0965}');
    let cfg = LanguageConfig {
        alphabets: String::from_str("a-zA-Z\u{0900}-\u{097F}\u{A8E0}-\u{A8FF}\u{11B00}-\u{11B5F}\u{1CD0}-\u{1CFF}"),
        has_case: false,
        period: '\u{0964}',
        question: '?',
        exclam: '!',
        extra,
    };
    Segmenter::new(cfg).segment(text)
}

/// Splits Santali text into sentences.
pub fn santali(text: &str) -> (r: Vec<String>)
    ensures
        r.deep_view() == segmented(
            (ConfigV {
                alphabets: "a-zA-Z\u{1C50}-\u{1C7F}"@,
                has_case: false,
                period: '\u{1C7E}',
                question: '\u{1C76}',
                exclam: '\u{1C7F}',
                extra: Seq::<char>::empty().push('\u{0964}').push('\u{0965}').push('.'),
            }),
            text@,
        ),
{
    let mut extra: Vec<char> = Vec::new();
    extra.push('\u{0964}');
    extra.push('\u{0965}');
    extra.push('.');
    let cfg = LanguageConfig {
        alphabets: String::from_str("a-zA-Z\u{1C50}-\u{1C7F}"),
        has_case: false,
        period: '\u{1C7E}',
        question: '\u{1C76}',
        exclam: '\u{1C7F}',
        extra,
    };
    Segmenter::new(cfg).segment(text)
}

/// Splits Scottish text into sentences.
pub fn scottish(text: &str) -> (r: Vec<String>)
    ensures
        r.deep_view() == segmented(cased("a-zA-Z"@), text@),
{
    segment_cased(text, String::from_str("a-zA-Z"))
}

/// Splits Serbian text into sentences.
pub fn serbian(text: &str) -> (r: Vec<String>)
    ensures
        r.deep_view() == segmented(cased("a-zA-ZščćđžŠČĆĐŽ\u{0400}-\u{04FF}\u{0500}-\u{052F}\u{2DE0}-\u{2DFF}\u{A640}-\u{A69F}\u{1C80}-\u{1C8F}\u{1E030}-\u{1E08F}\u{1D2B}\u{1D78}\u{FE2E}\u{FE2F}"@), text@),
{
    segment_cased(text, String::from_str("a-zA-ZščćđžŠČĆĐŽ\u{0400}-\u{04FF}\u{0500}-\u{052F}\u{2DE0}-\u{2DFF}\u{A640}-\u{A69F}\u{1C80}-\u{1C8F}\u{1E030}-\u{1E08F}\u{1D2B}\u{1D78}\u{FE2E}\u{FE2F}"))
}

/// Splits Shona text into sentences.
pub fn shona(text: &str) -> (r: Vec<String>)
    ensures
        r.deep_view() == segmented(cased("a-zA-ZáÁâÂàÀéÉèÈíÍìÌóÓòÒúÚùÙñÑ"@), text@),
{
    segment_cased(text, String::from_str("a-zA-ZáÁâÂàÀéÉèÈíÍìÌóÓòÒúÚùÙñÑ"))
}

/// Splits Sindhi text into sentences.
pub fn sindhi(text: &str) -> (r: Vec<String>)
    ensures
        r.deep_view() == segmented(
            (ConfigV {
                alphabets: "a-zA-Z\u{0600}-\u{06FF}\u{08A0}-\u{08FF}\u{0870}-\u{089F}\u{FB50}-\u{FDFF}\u{0900}-\u{097F}\u{A8E0}-\u{A8FF}\u{11B00}-\u{11B5F}\u{1CD0}-\u{1CFF}"@,
                has_case: false,
                period: '\u{0964}',
                question: '?',
                exclam: '!',
                extra: Seq::<char>::empty().push('.').push('\u{0965}').push('\u{06D4}'),
            }),
            text@,
        ),
{
    let mut extra: Vec<char> = Vec::new();
    extra.push('.');
    extra.push('\u{0965}');
    extra.push('\u{06D4}');
    let cfg = LanguageConfig {
        alphabets: String::from_str("a-zA-Z\u{0600}-\u{06FF}\u{08A0}-\u{08FF}\u{0870}-\u{089F}\u{FB50}-\u{FDFF}\u{0900}-\u{097F}\u{A8E0}-\u{A8FF}\u{11B00}-\u{11B5F}\u{1CD0}-\u{1CFF}"),
        has_case: false,
        period: '\u{0964}',
        question: '?',
        exclam: '!',
        extra,
    };
    Segmenter::new(cfg).segment(text)
}

/// Splits Sinhala text into sentences.
pub fn sinhala(text: &str) -> (r: Vec<String>)
    ensures
        r.deep_view() == segmented(
            (ConfigV {
                alphabets: "a-zA-Z\u{0D80}-\u{0DFF}"@,
                has_case: false,
                period: '\u{0964}',
                question: '?',
                exclam: '!',
                extra: Seq::<char>::empty().push('\u{0DF4}').push('\u{0965}').push('.'),
            }),
            text@,
        ),
{
    let mut extra: Vec<char> = Vec::new();
    extra.push('\u{0DF4}');
    extra.push('\u{0965}');
    extra.push('.');
    let cfg = LanguageConfig {
        alphabets: String::from_str("a-zA-Z\u{0D80}-\u{0DFF}"),
        has_case: false,
        period: '\u{0964}',
        question: '?',
        exclam: '!',
        extra,
    };
    Segmenter::new(cfg).segment(text)
}

/// Splits Slovak text into sentences.
pub fn slovak(text: &str) -> (r: Vec<String>)
    ensures
        r.deep_view() == segmented(cased("a-zA-ZÁÄČĎÉĽÍŇÓÔÚÝáäčďéľíňóôúý"@), text@),
{
    segment_cased(text, String::from_str("a-zA-ZÁÄČĎÉĽÍŇÓÔÚÝáäčďéľíňóôúý"))
}

/// Splits Slovenian text into sentences.
pub fn slovenian(text: &str) -> (r: Vec<String>)
    ensures
        r.deep_view() == segmented(cased("a-zA-ZČŠŽčšž"@), text@),
{
    segment_cased(text, String::from_str("a-zA-ZČŠŽčšž"))
}

/// Splits Somali text into sentences.
pub fn somali(text: &str) -> (r: Vec<String>)
    ensures
        r.deep_view() == segmented(cased("a-zA-ZÀàÁáÂâÆæÈèÉéÊêËëÍíÎîÒòÓóÔôÙùÚúÛû"@), text@),
{
    segment_cased(text, String::from_str("a-zA-ZÀàÁáÂâÆæÈèÉéÊêËëÍíÎîÒòÓóÔôÙùÚúÛû"))
}

/// Splits Sotho text into sentences.
pub fn sotho(text: &str) -> (r: Vec<String>)
    ensures
        r.deep_view() == segmented(cased("a-zA-ZÀàÁáÈèÉéÊêÍíÒòÓóÔôÙùÚú"@), text@),
{
    segment_cased(text, String::from_str("a-zA-ZÀàÁáÈèÉéÊêÍíÒòÓóÔôÙùÚú"))
}

/// Splits Spanish text into sentences.
pub fn spanish(text: &str) -> (r: Vec<String>)
    ensures
        r.deep_view() == segmented(cased("a-zA-ZÁÉÍÓÚÑáéíóúñ"@), text@),
{
    segment_cased(text, String::from_str("a-zA-ZÁÉÍÓÚÑáéíóúñ"))
}

/// Splits Sundanese text into sentences.
pub fn sundanese(text: &str) -> (r: Vec<String>)
    ensures
        r.deep_view() == segmented(
            (ConfigV {
                alphabets: "a-zA-Z\u{0600}-\u{06FF}\u{08A0}-\u{08FF}\u{0870}-\u{089F}\u{FB50}-\u{FDFF}"@,
                has_case: false,
                period: '.',
                question: '\u{061F}',
                exclam: '!',
                extra: Seq::<char>::empty().push('?').push('\u{06D4}'),
            }),
            text@,
        ),
{
    let mut extra: Vec<char> = Vec::new();
    extra.push('?');
    extra.push('\u{06D4}');
    let cfg = LanguageConfig {
        alphabets: String::from_str("a-zA-Z\u{0600}-\u{06FF}\u{08A0}-\u{08FF}\u{0870}-\u{089F}\u{FB50}-\u{FDFF}"),
        has_case: false,
        period: '.',
        question: '\u{061F}',
        exclam: '!',
        extra,
    };
    Segmenter::new(cfg).segment(text)
}

/// Splits Swahili text into sentences.
pub fn swahili(text: &str) -> (r: Vec<String>)
    ensures
        r.deep_view() == segmented(cased("a-zA-Z"@), text@),
{
    segment_cased(text, String::from_str("a-zA-Z"))
}

/// Splits Swedish text into sentences.
pub fn swedish(text: &str) -> (r: Vec<String>)
    ensures
        r.deep_view() == segmented(cased("a-zA-ZÅÄÖåäö"@), text@),
{
    segment_cased(text, String::from_str("a-zA-ZÅÄÖåäö"))
}

/// Splits Tagalog text into sentences.
pub fn tagalog(text: &str) -> (r: Vec<String>)
    ensures
        r.deep_view() == segmented(cased("a-zA-Z"@), text@),
{
    segment_cased(text, String::from_str("a-zA-Z"))
}

/// Splits Tamil text into sentences.
pub fn tamil(text: &str) -> (r: Vec<String>)
    ensures
        r.deep_view() == segmented(
            (ConfigV {
                alphabets: "a-zA-Z\u{0B80}-\u{0BFF}"@,
                has_case: false,
                period: '.',
                question: '?',
                exclam: '!',
                extra: Seq::<char>::empty(),
            }),
            text@,
        ),
{
    let extra: Vec<char> = Vec::new();
    let cfg = LanguageConfig {
        alphabets: String::from_str("a-zA-Z\u{0B80}-\u{0BFF}"),
        has_case: false,
        period: '.',
        question: '?',
        exclam: '!',
        extra,
    };
    Segmenter::new(cfg).segment(text)
}

/// Splits Tatar text into sentences.
pub fn tatar(text: &str) -> (r: Vec<String>)
    ensures
        r.deep_view() == segmented(cased("a-zA-Z\u{0400}-\u{04FF}\u{0500}-\u{052F}\u{2DE0}-\u{2DFF}\u{A640}-\u{A69F}\u{1C80}-\u{1C8F}\u{1E030}-\u{1E08F}\u{1D2B}\u{1D78}\u{FE2E}\u{FE2F}"@), text@),
{
    segment_cased(text, String::from_str("a-zA-Z\u{0400}-\u{04FF}\u{0500}-\u{052F}\u{2DE0}-\u{2DFF}\u{A640}-\u{A69F}\u{1C80}-\u{1C8F}\u{1E030}-\u{1E08F}\u{1D2B}\u{1D78}\u{FE2E}\u{FE2F}"))
}

/// Splits Telugu text into sentences.
pub fn telugu(text: &str) -> (r: Vec<String>)
    ensures
        r.deep_view() == segmented(
            (ConfigV {
                alphabets: "a-zA-Z\u{0C00}-\u{0C7F}"@,
                has_case: false,
                period: '.',
                question: '?',
                exclam: '!',
                extra: Seq::<char>::empty().push('\u{061F}'),
            }),
            text@,
        ),
{
    let mut extra: Vec<char> = Vec::new();
    extra.push('\u{061F}');
    let cfg = LanguageConfig {
        alphabets: String::from_str("a-zA-Z\u{0C00}-\u{0C7F}"),
        has_case: false,
        period: '.',
        question: '?',
        exclam: '!',
        extra,
    };
    Segmenter::new(cfg).segment(text)
}

/// Splits Tibetan text into sentences.
pub fn tibetan(text: &str) -> (r: Vec<String>)
    ensures
        r.deep_view() == segmented(
            (ConfigV {
                alphabets: "a-zA-Z\u{0F00}-\u{0FFF}"@,
                has_case: false,
                period: '\u{0F0D}',
                question: '\u{2048}',
                exclam: '\u{0FC8}',
                extra: Seq::<char>::empty().push('\u{0F0E}').push('\u{0F12}').push('\u{0F00}').push('\u{0F01}').push('\u{0F09}').push('\u{0F0A}').push('.'),
            }),
            text@,
        ),
{
    let mut extra: Vec<char> = Vec::new();
    extra.push('\u{0F0E}');
    extra.push('\u{0F12}');
    extra.push('\u{0F00}');
    extra.push('\u{0F01}');
    extra.push('\u{0F09}');
    extra.push('\u{0F0A}');
    extra.push('.');
    let cfg = LanguageConfig {
        alphabets: String::from_str("a-zA-Z\u{0F00}-\u{0FFF}"),
        has_case: false,
        period: '\u{0F0D}',
        question: '\u{2048}',
        exclam: '\u{0FC8}',
        extra,
    };
    Segmenter::new(cfg).segment(text)
}

/// Splits Tsonga text into sentences.
pub fn tsonga(text: &str) -> (r: Vec<String>)
    ensures
        r.deep_view() == segmented(cased("a-zA-Z"@), text@),
{
    segment_cased(text, String::from_str("a-zA-Z"))
}

/// Splits Tswana text into sentences.
pub fn tswana(text: &str) -> (r: Vec<String>)
    ensures
        r.deep_view() == segmented(cased("a-zA-Z"@), text@),
{
    segment_cased(text, String::from_str("a-zA-Z"))
}

/// Splits Turkish text into sentences.
pub fn turkish(text: &str) -> (r: Vec<String>)
    ensures
        r.deep_view() == segmented(cased("a-zA-ZĞğİıÇçŞşÖöÜü"@), text@),
{
    segment_cased(text, String::from_str("a-zA-ZĞğİıÇçŞşÖöÜü"))
}

/// Splits Turkmen text into sentences.
pub fn turkmen(text: &str) -> (r: Vec<String>)
    ensures
        r.deep_view() == segmented(cased("a-zA-ZÄäÇçĞğÑñÖöŞşÜü"@), text@),
{
    segment_cased(text, String::from_str("a-zA-ZÄäÇçĞğÑñÖöŞşÜü"))
}

/// Splits Ukrainian text into sentences.
pub fn ukrainian(text: &str) -> (r: Vec<String>)
    ensures
        r.deep_view() == segmented(cased("a-zA-Z\u{0400}-\u{04FF}\u{0500}-\u{052F}\u{2DE0}-\u{2DFF}\u{A640}-\u{A69F}\u{1C80}-\u{1C8F}\u{1E030}-\u{1E08F}\u{1D2B}\u{1D78}\u{FE2E}\u{FE2F}"@), text@),
{
    segment_cased(text, String::from_str("a-zA-Z\u{0400}-\u{04FF}\u{0500}-\u{052F}\u{2DE0}-\u{2DFF}\u{A640}-\u{A69F}\u{1C80}-\u{1C8F}\u{1E030}-\u{1E08F}\u{1D2B}\u{1D78}\u{FE2E}\u{FE2F}"))
}

/// Splits Urdu text into sentences.
pub fn urdu(text: &str) -> (r: Vec<String>)
    ensures
        r.deep_view() == segmented(
            (ConfigV {
                alphabets: "a-zA-Z\u{0600}-\u{06FF}\u{08A0}-\u{08FF}\u{0870}-\u{089F}\u{FB50}-\u{FDFF}"@,
                has_case: false,
                period: '.',
                question: '\u{061F}',
                exclam: '!',
                extra: Seq::<char>::empty().push('\u{06D4}'),
            }),
            text@,
        ),
{
    let mut extra: Vec<char> = Vec::new();
    extra.push('\u{06D4}');
    let cfg = LanguageConfig {
        alphabets: String::from_str("a-zA-Z\u{0600}-\u{06FF}\u{08A0}-\u{08FF}\u{0870}-\u{089F}\u{FB50}-\u{FDFF}"),
        has_case: false,
        period: '.',
        question: '\u{061F}',
        exclam: '!',
        extra,
    };
    Segmenter::new(cfg).segment(text)
}

/// Splits Uyghur text into sentences.
pub fn uyghur(text: &str) -> (r: Vec<String>)
    ensures
        r.deep_view() == segmented(
            (ConfigV {
                alphabets: "a-zA-Z\u{0600}-\u{06FF}\u{08A0}-\u{08FF}\u{0870}-\u{089F}\u{FB50}-\u{FDFF}"@,
                has_case: false,
                period: '.',
                question: '\u{061F}',
                exclam: '!',
                extra: Seq::<char>::empty().push('\u{06D4}'),
            }),
            text@,
        ),
{
    let mut extra: Vec<char> = Vec::new();
    extra.push('\u{06D4}');
    let cfg = LanguageConfig {
        alphabets: String::from_str("a-zA-Z\u{0600}-\u{06FF}\u{08A0}-\u{08FF}\u{0870}-\u{089F}\u{FB50}-\u{FDFF}"),
        has_case: false,
        period: '.',
        question: '\u{061F}',
        exclam: '!',
        extra,
    };
    Segmenter::new(cfg).segment(text)
}

/// Splits Uzbek text into sentences.
pub fn uzbek(text: &str) -> (r: Vec<String>)
    ensures
        r.deep_view() == segmented(cased("a-zA-ZŌŞÇḠōşçḡ\u{0400}-\u{04FF}\u{0500}-\u{052F}\u{2DE0}-\u{2DFF}\u{A640}-\u{A69F}\u{1C80}-\u{1C8F}\u{1E030}-\u{1E08F}\u{1D2B}\u{1D78}\u{FE2E}\u{FE2F}"@), text@),
{
    segment_cased(text, String::from_str("a-zA-ZŌŞÇḠōşçḡ\u{0400}-\u{04FF}\u{0500}-\u{052F}\u{2DE0}-\u{2DFF}\u{A640}-\u{A69F}\u{1C80}-\u{1C8F}\u{1E030}-\u{1E08F}\u{1D2B}\u{1D78}\u{FE2E}\u{FE2F}"))
}

/// Splits Vietnamese text into sentences.
pub fn vietnamese(text: &str) -> (r: Vec<String>)
    ensures
        r.deep_view() == segmented(cased("a-zA-ZÀÁÂÃÈÉÊÌÍÒÓÔÕÙÚĂĐĨŨƠƯàáâãèéêìíòóôõùúăđĩũơưỲÝỴỶỸỳýỵỷỹ"@), text@),
{
    segment_cased(text, String::from_str("a-zA-ZÀÁÂÃÈÉÊÌÍÒÓÔÕÙÚĂĐĨŨƠƯàáâãèéêìíòóôõùúăđĩũơưỲÝỴỶỸỳýỵỷỹ"))
}

/// Splits Volapuk text into sentences.
pub fn volapuk(text: &str) -> (r: Vec<String>)
    ensures
        r.deep_view() == segmented(cased("a-zA-ZäöüÄÖÜ"@), text@),
{
    segment_cased(text, String::from_str("a-zA-ZäöüÄÖÜ"))
}

/// Splits Welsh text into sentences.
pub fn welsh(text: &str) -> (r: Vec<String>)
    ensures
        r.deep_view() == segmented(cased("a-zA-Z"@), text@),
{
    segment_cased(text, String::from_str("a-zA-Z"))
}

/// Splits Xhosa text into sentences.
pub fn xhosa(text: &str) -> (r: Vec<String>)
    ensures
        r.deep_view() == segmented(cased("a-zA-Z"@), text@),
{
    segment_cased(text, String::from_str("a-zA-Z"))
}

/// Splits Yiddish text into sentences.
pub fn yiddish(text: &str) -> (r: Vec<String>)
    ensures
        r.deep_view() == segmented(
            (ConfigV {
                alphabets: "a-zA-Z\u{0590}-\u{05FF}"@,
                has_case: false,
                period: '.',
                question: '?',
                exclam: '!',
                extra: Seq::<char>::empty(),
            }),
            text@,
        ),
{
    let extra: Vec<char> = Vec::new();
    let cfg = LanguageConfig {
        alphabets: String::from_str("a-zA-Z\u{0590}-\u{05FF}"),
        has_case: false,
        period: '.',
        question: '?',
        exclam: '!',
        extra,
    };
    Segmenter::new(cfg).segment(text)
}

/// Splits Yoruba text into sentences.
pub fn yoruba(text: &str) -> (r: Vec<String>)
    ensures
        r.deep_view() == segmented(cased("a-zA-ZẸỌṢẹọṣ"@), text@),
{
    segment_cased(text, String::from_str("a-zA-ZẸỌṢẹọṣ"))
}

/// Splits Zulu text into sentences.
pub fn zulu(text: &str) -> (r: Vec<String>)
    ensures
        r.deep_view() == segmented(cased("a-zA-Z"@), text@),
{
    segment_cased(text, String::from_str("a-zA-Z"))
}

} // verus!
