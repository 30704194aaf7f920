use cargo_extract_readme::artifact::{extract_readme, DocArtifact, ExtractError};
use cargo_extract_readme::doctest::strip_hidden_lines;
use cargo_extract_readme::event::{DocEvent, Transformer, DEFAULT_LANGUAGE_HINT};
use cargo_extract_readme::pipeline::{render_markdown, write_document, MarkdownWriter};
use pulldown_cmark::{CodeBlockKind, Event, Options, Parser, Tag};

fn text_of(e: &DocEvent) -> Option<String> {
    match e {
        DocEvent::Text(t) => Some(t.clone()),
        _ => None,
    }
}

fn hint_of(e: &DocEvent) -> Option<String> {
    match e {
        DocEvent::FencedCodeStart(h) => Some(h.clone()),
        _ => None,
    }
}

/// The events of a parse, with adjacent text runs merged: two texts that
/// differ only in where escapes split them read the same.
fn reparse(text: &str) -> Vec<Event<'static>> {
    let mut out: Vec<Event<'static>> = Vec::new();
    for e in Parser::new_ext(text, Options::empty()) {
        match (out.last_mut(), e) {
            (Some(Event::Text(prev)), Event::Text(t)) => {
                *prev = format!("{}{}", prev, t).into();
            }
            (_, e) => out.push(e.into_static()),
        }
    }
    out
}

#[test]
fn fence_without_hint_gets_default() {
    let mut t = Transformer::new(DEFAULT_LANGUAGE_HINT);
    let out = t.transform(DocEvent::FencedCodeStart(String::new()));
    assert_eq!(hint_of(&out), Some("rust".to_string()));
    assert!(t.in_code_block());
}

#[test]
fn fence_with_hint_is_kept() {
    let mut t = Transformer::new("rust");
    let out = t.transform(DocEvent::FencedCodeStart("toml".to_string()));
    assert_eq!(hint_of(&out), Some("toml".to_string()));
}

#[test]
fn configured_hint_is_used() {
    let mut t = Transformer::new("python");
    let out = t.transform(DocEvent::FencedCodeStart(String::new()));
    assert_eq!(hint_of(&out), Some("python".to_string()));
}

#[test]
fn doctest_lines_are_stripped() {
    assert_eq!(
        strip_hidden_lines("# setup();\nfn main() {}\n# teardown();"),
        "fn main() {}"
    );
}

#[test]
fn bare_hash_line_is_kept() {
    assert_eq!(strip_hidden_lines("#\nlet x = 1;"), "#\nlet x = 1;");
    assert_eq!(strip_hidden_lines("#[derive(Debug)]\n#  two"), "#[derive(Debug)]");
}

#[test]
fn stripping_edge_cases() {
    assert_eq!(strip_hidden_lines(""), "");
    assert_eq!(strip_hidden_lines("a\n"), "a");
    assert_eq!(strip_hidden_lines("a\r\n# b\r\nc"), "a\nc");
    assert_eq!(strip_hidden_lines("a\n\nb"), "a\n\nb");
    assert_eq!(strip_hidden_lines("# only"), "");
    assert_eq!(strip_hidden_lines(" # indented"), " # indented");
    assert_eq!(strip_hidden_lines("a\r"), "a\r");
    assert_eq!(strip_hidden_lines("# é\nß → ok\n"), "ß → ok");
}

#[test]
fn text_is_stripped_only_inside_fenced_blocks() {
    let mut t = Transformer::new("rust");
    let before = t.transform(DocEvent::Text("# a\nb".to_string()));
    assert_eq!(text_of(&before), Some("# a\nb".to_string()));
    t.transform(DocEvent::FencedCodeStart("rust".to_string()));
    let inside = t.transform(DocEvent::Text("# a\nb".to_string()));
    assert_eq!(text_of(&inside), Some("b".to_string()));
    t.transform(DocEvent::CodeBlockEnd);
    assert!(!t.in_code_block());
    let after = t.transform(DocEvent::Text("# a\nb".to_string()));
    assert_eq!(text_of(&after), Some("# a\nb".to_string()));
}

#[test]
fn in_code_flag_follows_fences_only() {
    let mut t = Transformer::new("rust");
    t.transform(DocEvent::Other(Event::Start(Tag::BlockQuote(None))));
    assert!(!t.in_code_block());
    t.transform(DocEvent::FencedCodeStart(String::new()));
    assert!(t.in_code_block());
    t.transform(DocEvent::Text("x".to_string()));
    assert!(t.in_code_block());
    t.transform(DocEvent::CodeBlockEnd);
    assert!(!t.in_code_block());
    t.transform(DocEvent::Other(Event::Start(Tag::CodeBlock(CodeBlockKind::Indented))));
    assert!(!t.in_code_block());
}

#[test]
fn untouched_stream_passes_through() {
    let mut t = Transformer::new("rust");
    let out = t.transform(DocEvent::Text("# heading-like text".to_string()));
    assert_eq!(text_of(&out), Some("# heading-like text".to_string()));
    let out = t.transform(DocEvent::FencedCodeStart("sh".to_string()));
    assert_eq!(hint_of(&out), Some("sh".to_string()));
    let out = t.transform(DocEvent::CodeBlockEnd);
    assert!(matches!(out, DocEvent::CodeBlockEnd));
}

#[test]
fn hinted_document_round_trips() {
    let source = "# Title\n\nSome *text* and `code`.\n\n```toml\nkey = 1\n```\n\n- a\n- b\n";
    let rendered = render_markdown(source, "rust").unwrap();
    let (got, want) = (reparse(&rendered.markdown), reparse(source));
    let first = got.iter().zip(want.iter()).position(|(a, b)| a != b);
    assert!(got == want, "{:?} at {:?}: {:?}", rendered.markdown, first, first.map(|i| (got[i].clone(), want[i].clone())));
    assert!(rendered.broken_links.is_empty());
}

#[test]
fn missing_root_docs_is_an_error() {
    let mut a = DocArtifact::new(0);
    a.add_item(0, None);
    a.add_item(1, Some("other".to_string()));
    assert!(matches!(extract_readme(&a, "rust"), Err(ExtractError::MissingRootDocs)));
    assert!(matches!(a.root_docs(), Err(ExtractError::MissingRootDocs)));
}

#[test]
fn empty_root_docs_is_an_error() {
    let mut a = DocArtifact::new(7);
    a.add_item(7, Some(String::new()));
    assert!(matches!(extract_readme(&a, "rust"), Err(ExtractError::MissingRootDocs)));
}

#[test]
fn root_docs_are_found() {
    let mut a = DocArtifact::new(3);
    a.add_item(1, Some("not me".to_string()));
    a.add_item(3, Some("Root docs.".to_string()));
    assert_eq!(a.root(), 3);
    assert!(a.has_item(1));
    assert_eq!(a.root_docs().unwrap(), "Root docs.");
}

#[test]
fn broken_link_is_reported_once() {
    let rendered = render_markdown("see [x][nope]", "rust").unwrap();
    assert_eq!(rendered.broken_links.len(), 1);
    assert_eq!(rendered.broken_links[0].reference, "nope");
    assert_eq!(reparse(&rendered.markdown), reparse("see [x][nope]"));
    assert!(rendered.markdown.contains("nope"));
}

#[test]
fn end_to_end_readme() {
    let docs = "Does a thing.\n\n```\n# fn setup() {}\nfn main() { do_thing(); }\n```\n";
    let mut a = DocArtifact::new(0);
    a.add_item(0, Some(docs.to_string()));
    let rendered = extract_readme(&a, DEFAULT_LANGUAGE_HINT).unwrap();
    let events = reparse(&rendered.markdown);
    assert!(events.contains(&Event::Text("Does a thing.".into())));
    assert!(events.contains(&Event::Start(Tag::CodeBlock(CodeBlockKind::Fenced("rust".into())))));
    let code: Vec<String> = events
        .iter()
        .filter_map(|e| match e {
            Event::Text(t) if t.contains("main") || t.contains("setup") => Some(t.to_string()),
            _ => None,
        })
        .collect();
    assert_eq!(code.len(), 1);
    assert_eq!(code[0].trim_end(), "fn main() { do_thing(); }");
    assert!(!rendered.markdown.contains("setup"));
}

#[test]
fn document_is_rewritten_and_finalized() {
    let mut out = String::new();
    let events = vec![
        DocEvent::FencedCodeStart(String::new()),
        DocEvent::Text("# hidden\nshown\n".to_string()),
        DocEvent::CodeBlockEnd,
    ];
    write_document(events, "rust", &mut out).unwrap();
    let events = reparse(&out);
    assert!(
        events.contains(&Event::Start(Tag::CodeBlock(CodeBlockKind::Fenced("rust".into())))),
        "{}",
        out
    );
    assert!(out.contains("shown"));
    assert!(!out.contains("hidden"));
}

#[test]
fn writer_steps_append_to_output() {
    let mut out = String::from("> ");
    let w = MarkdownWriter::new();
    let w = w.write_event(DocEvent::Other(Event::Start(Tag::Paragraph)), &mut out).unwrap();
    let w = w.write_event(DocEvent::Text("hello".to_string()), &mut out).unwrap();
    let w = w.write_event(DocEvent::Other(Event::End(pulldown_cmark::TagEnd::Paragraph)), &mut out).unwrap();
    w.finish(&mut out).unwrap();
    assert!(out.starts_with("> "));
    assert_eq!(out[2..].trim(), "hello");
}

#[test]
fn unbalanced_stream_is_refused() {
    let mut out = String::new();
    let events = vec![
        DocEvent::Other(Event::Start(Tag::Paragraph)),
        DocEvent::Other(Event::End(pulldown_cmark::TagEnd::Link)),
        DocEvent::Text("never written".to_string()),
    ];
    assert!(write_document(events, "rust", &mut out).is_err());
    assert!(!out.contains("never written"));
}
