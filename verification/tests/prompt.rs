use whispertray::modes::render_prompt;

#[test]
fn test_render_prompt_basic() {
    let template = "Transcript: {{transcript}}\nLanguage: {{language}}";
    let result = render_prompt(template, "Hello world", None, "en");
    assert!(result.contains("Hello world"));
    assert!(result.contains("en"));
}

#[test]
fn test_render_prompt_with_context() {
    let template = "{{#if context}}Context: {{context}}{{/if}}\nTranscript: {{transcript}}";
    let result = render_prompt(template, "Hello", Some("Previous message"), "en");
    assert!(result.contains("Previous message"));
    assert!(result.contains("Hello"));
}

#[test]
fn test_render_prompt_without_context() {
    let template = "{{#if context}}Context: {{context}}{{/if}}Transcript: {{transcript}}";
    let result = render_prompt(template, "Hello", None, "en");
    assert!(!result.contains("Context:"));
    assert!(result.contains("Hello"));
}

#[test]
fn render_fills_transcript_and_language() {
    assert_eq!(render_prompt("{{transcript}} / {{language}}", "hi", None, "en"), "hi / en");
}

#[test]
fn render_keeps_block_content_with_context() {
    assert_eq!(
        render_prompt("{{#if context}}C:{{context}}{{/if}}T:{{transcript}}", "hi", Some("ctx"), "en"),
        "C:ctxT:hi"
    );
}

#[test]
fn render_removes_block_without_context() {
    assert_eq!(
        render_prompt("{{#if context}}C:{{context}}{{/if}}T:{{transcript}}", "hi", None, "en"),
        "T:hi"
    );
}

fn find_from(text: &[char], pat: &[char], from: usize) -> Option<usize> {
    let mut i = from;
    while i + pat.len() <= text.len() {
        if text[i..i + pat.len()] == *pat {
            return Some(i);
        }
        i += 1;
    }
    None
}

fn without_blocks(text: &[char]) -> Vec<char> {
    let open: Vec<char> = "{{#if context}}".chars().collect();
    let close: Vec<char> = "{{/if}}".chars().collect();
    let start = match find_from(text, &open, 0) {
        Some(i) => i,
        None => return text.to_vec(),
    };
    let end = match find_from(text, &close, start + open.len()) {
        Some(j) => j + close.len(),
        None => return text.to_vec(),
    };
    let mut kept = text[..start].to_vec();
    kept.extend(without_blocks(&text[end..]));
    kept
}

#[test]
fn blocks_are_removed_from_the_left_and_as_short_as_possible() {
    let tokens = ["{{#if context}}", "{{/if}}", "a", "\n", "{{", "}}", " x "];
    let mut templates = vec![String::new()];
    let mut longest = vec![String::new()];
    for _ in 0..4 {
        let mut longer = Vec::new();
        for template in &longest {
            for token in tokens {
                longer.push(format!("{}{}", template, token));
            }
        }
        templates.extend(longer.iter().cloned());
        longest = longer;
    }
    assert_eq!(templates.len(), 2801);
    for template in &templates {
        let chars: Vec<char> = template.chars().collect();
        let expected: String = without_blocks(&chars).into_iter().collect();
        assert_eq!(render_prompt(template, "t", None, "l"), expected.trim(), "{:?}", template);
    }
}

#[test]
fn block_spans_lines_and_unclosed_block_stays() {
    assert_eq!(
        render_prompt("A\n{{#if context}}\nContext:\n{{context}}\n{{/if}}\nB", "t", None, "en"),
        "A\n\nB"
    );
    assert_eq!(
        render_prompt("{{#if context}}1{{/if}}-{{#if context}}2{{/if}}-{{/if}}", "t", None, "en"),
        "--{{/if}}"
    );
    assert_eq!(render_prompt("x{{#if context}}y", "t", None, "en"), "x{{#if context}}y");
    assert_eq!(
        render_prompt("{{#if context}}{{#if context}}a{{/if}}b{{/if}}", "t", None, "en"),
        "b{{/if}}"
    );
}

#[test]
fn context_fills_every_placeholder_and_drops_the_markers() {
    assert_eq!(
        render_prompt("{{#if context}}<{{context}}>{{/if}} {{context}}", "t", Some("c"), "en"),
        "<c> c"
    );
    assert_eq!(render_prompt("{{/if}}{{/if}}x", "t", Some(""), "en"), "x");
}

#[test]
fn transcript_is_filled_before_the_language() {
    assert_eq!(render_prompt("{{transcript}}", "say {{language}}", None, "de"), "say de");
    assert_eq!(render_prompt("{{language}}", "x", None, "{{transcript}}"), "{{transcript}}");
    assert_eq!(render_prompt("  {{transcript}}\n", " padded ", None, "en"), "padded");
    assert_eq!(render_prompt("", "x", None, "en"), "");
}

#[test]
fn builtin_prompt_without_context_has_no_block() {
    let prompt = render_prompt(whispertray::modes::NOTE_TEMPLATE, "buy milk", None, "en");
    assert!(!prompt.contains("{{"));
    assert!(!prompt.contains("Context (for reference only)"));
    assert!(prompt.ends_with("\n\n\n\nTranscript:\nbuy milk\n\nNotes:"));
    let with = render_prompt(whispertray::modes::NOTE_TEMPLATE, "buy milk", Some("shopping"), "en");
    assert!(with.contains("\n\nContext (for reference only):\nshopping\n\n\nTranscript:\nbuy milk"));
}
