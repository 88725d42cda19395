use whispertray::artifact::{assemble_transcript, is_non_speech_artifact};
use whispertray::audio::{calculate_duration_ms, SAMPLE_RATE};

#[test]
fn known_markers_are_artifacts() {
    assert!(is_non_speech_artifact("[BLANK_AUDIO]"));
    assert!(is_non_speech_artifact("[blank audio]"));
    assert!(is_non_speech_artifact("(music)"));
    assert!(!is_non_speech_artifact("[custom tag]"));
    assert!(is_non_speech_artifact(""));
    assert!(!is_non_speech_artifact("I like music"));
}

#[test]
fn whole_vocabulary_in_both_brackets() {
    let words = [
        "blank_audio", "blank audio", "silence", "music", "applause", "laughter", "inaudible",
        "no-speech", "no-audio",
    ];
    for word in words {
        assert!(is_non_speech_artifact(&format!("[{}]", word)), "{}", word);
        assert!(is_non_speech_artifact(&format!("({})", word)), "{}", word);
        assert!(is_non_speech_artifact(&format!("  [{}]\n", word.to_uppercase())), "{}", word);
        assert!(!is_non_speech_artifact(word), "{}", word);
        assert!(!is_non_speech_artifact(&format!("[{})", word)), "{}", word);
        assert!(!is_non_speech_artifact(&format!("[{}] x", word)), "{}", word);
    }
}

#[test]
fn edge_cases_of_the_filter() {
    assert!(is_non_speech_artifact("   \t\n"));
    assert!(is_non_speech_artifact("\u{2003}\u{3000}"));
    assert!(!is_non_speech_artifact("["));
    assert!(!is_non_speech_artifact("[]"));
    assert!(!is_non_speech_artifact("()"));
    assert!(!is_non_speech_artifact("[ music ]"));
    assert!(!is_non_speech_artifact("[[music]]"));
    assert!(!is_non_speech_artifact("{music}"));
    assert!(is_non_speech_artifact("[MuSiC]"));
    // only ASCII letters are folded
    assert!(!is_non_speech_artifact("[BLAN\u{212A}_AUDIO]"));
}

#[test]
fn segments_are_joined_without_separator_and_trimmed() {
    let segments = vec![" Hello".to_string(), ",".to_string(), " world ".to_string()];
    assert_eq!(assemble_transcript(&segments), "Hello, world");
    let with_markers = vec![
        "[MUSIC]".to_string(),
        " One".to_string(),
        " (applause) ".to_string(),
        " two.".to_string(),
        "".to_string(),
    ];
    assert_eq!(assemble_transcript(&with_markers), "One two.");
    assert_eq!(assemble_transcript(&Vec::new()), "");
}

#[test]
fn artifact_only_segments_leave_nothing() {
    let segments = vec!["[BLANK_AUDIO]".to_string(), " (silence) ".to_string()];
    let text = assemble_transcript(&segments);
    assert_eq!(text, "");
    assert!(is_non_speech_artifact(&text));
}

#[test]
fn filtering_twice_changes_nothing() {
    let segments = vec![
        "[music]".to_string(),
        " spoken [music] words ".to_string(),
        "(laughter)".to_string(),
        "[custom tag]".to_string(),
    ];
    let kept: Vec<String> = segments.iter().filter(|s| !is_non_speech_artifact(s)).cloned().collect();
    let again: Vec<String> = kept.iter().filter(|s| !is_non_speech_artifact(s)).cloned().collect();
    assert_eq!(kept, again);
    assert_eq!(assemble_transcript(&kept), assemble_transcript(&segments));
    assert_eq!(assemble_transcript(&segments), "spoken [music] words [custom tag]");
}

#[test]
fn duration_of_two_seconds() {
    assert_eq!(SAMPLE_RATE, 16000);
    assert_eq!(calculate_duration_ms(32_000), 2000);
}

#[test]
fn duration_rounds_down_and_does_not_overflow() {
    assert_eq!(calculate_duration_ms(0), 0);
    assert_eq!(calculate_duration_ms(15), 0);
    assert_eq!(calculate_duration_ms(16), 1);
    assert_eq!(calculate_duration_ms(16_001), 1000);
    assert_eq!(calculate_duration_ms(usize::MAX), (usize::MAX as u128 * 1000 / 16000) as u64);
}
