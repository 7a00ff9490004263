use sentence_segmentation::processor;

#[test]
fn resegmenting_joined_output_is_stable_english() {
    let first = processor::english("How are you? Fine thanks. See you tomorrow.");
    let joined = first.join(" ");
    let second = processor::english(&joined);
    assert_eq!(first, second);
}

#[test]
fn resegmenting_joined_output_is_stable_russian() {
    let first = processor::russian("Как дела? Всё хорошо. До завтра.");
    let joined = first.join(" ");
    let second = processor::russian(&joined);
    assert_eq!(first, second);
}

#[test]
fn no_sentence_shorter_than_three_chars() {
    let out = processor::english("A. Hello there.");
    assert_eq!(out, vec!["Hello there.".to_string()]);
    for s in processor::english("Hi!! Ok. Go on? x. Done now.") {
        assert!(s.chars().count() > 2);
    }
}

#[test]
fn three_char_sentences_survive() {
    let out = processor::english("Hi. Go.");
    assert_eq!(out, vec!["Hi.".to_string(), "Go.".to_string()]);
}

#[test]
fn domain_is_not_a_split_point() {
    let out = processor::english("Visit www.example.com for info.");
    assert_eq!(out.len(), 1);
    assert!(out[0].ends_with("info."));
    assert!(out[0].contains("www.example.com"));
}

#[test]
fn quoted_question_is_not_a_split_point() {
    let out = processor::english("He said \"Are you sure?\" and left.");
    assert_eq!(out.len(), 1);
}

#[test]
fn question_mark_before_letter_is_masked() {
    let out = processor::english("Why?No");
    assert_eq!(out, vec!["Why?No.".to_string()]);
}

#[test]
fn lowercase_start_merges_into_previous() {
    let out = processor::english("Dr. smith arrived.");
    assert_eq!(out, vec!["Dr. smith arrived.".to_string()]);
}

#[test]
fn caseless_script_never_merges() {
    let out = processor::georgian("ეს კარგია. ეს ასევე კარგია.");
    assert_eq!(out, vec!["ეს კარგია.".to_string(), "ეს ასევე კარგია.".to_string()]);
}

#[test]
fn merge_runs_only_for_cased_scripts() {
    let cased = processor::english("Abc def. xyz abc.");
    assert_eq!(cased.len(), 1);
    let caseless = processor::korean("Abc def. xyz abc.");
    assert_eq!(caseless.len(), 2);
}

#[test]
fn numbered_list_markers_are_stripped() {
    let out = processor::english("1. First point. 2. Second point.");
    assert_eq!(out, vec!["First point.".to_string(), "Second point.".to_string()]);
}

#[test]
fn empty_input_yields_no_sentences() {
    assert!(processor::english("").is_empty());
    assert!(processor::japanese("").is_empty());
}

#[test]
fn input_without_terminator_gets_period_appended() {
    let out = processor::english("Look at this");
    assert_eq!(out, vec!["Look at this.".to_string()]);
}

#[test]
fn whitespace_runs_collapse_to_single_spaces() {
    let out = processor::english("Too   many\t spaces  here. Ok then.");
    assert_eq!(out, vec!["Too many spaces here.".to_string(), "Ok then.".to_string()]);
}

#[test]
fn characters_outside_alphabet_are_stripped() {
    let out = processor::english("Strip #$% symbols now. Keep text.");
    assert_eq!(out, vec!["Strip symbols now.".to_string(), "Keep text.".to_string()]);
}

#[test]
fn continuous_punctuation_collapses() {
    let out = processor::english("What?! Really. Ok fine.");
    assert_eq!(out, vec!["What Really.".to_string(), "Ok fine.".to_string()]);
}

#[test]
fn ellipsis_is_not_a_split_point() {
    let out = processor::english("Wait... Then go. Now.");
    assert_eq!(out, vec!["Wait Then go.".to_string(), "Now.".to_string()]);
}

#[test]
fn parenthesized_spans_are_removed() {
    let out = processor::english("Keep this (drop that). And more.");
    assert_eq!(out, vec!["Keep this.".to_string(), "And more.".to_string()]);
}

#[test]
fn email_host_is_not_a_split_point() {
    let out = processor::english("Mail user@site.com now. Done ok.");
    assert_eq!(out, vec!["Mail usersite.com now.".to_string(), "Done ok.".to_string()]);
}

#[test]
fn file_extensions_are_removed() {
    let out = processor::english("Open .zip files. Then stop.");
    assert_eq!(out, vec!["Open files.".to_string(), "Then stop.".to_string()]);
}

#[test]
fn exclamation_brand_names_are_masked() {
    let out = processor::english("Wow Yum!Brands is big. He left.");
    assert_eq!(out, vec!["Wow Yum!Brands is big.".to_string(), "He left.".to_string()]);
}

#[test]
fn comma_after_exclamation_keeps_one_sentence() {
    let out = processor::english("Stop!, he said. Go home.");
    assert_eq!(out, vec!["Stop! he said.".to_string(), "Go home.".to_string()]);
}

#[test]
fn cjk_terminal_punctuation_splits() {
    let out = processor::japanese("これはペンです。それもペンです。");
    assert_eq!(out, vec!["これはペンです。".to_string(), "それもペンです。".to_string()]);
}
