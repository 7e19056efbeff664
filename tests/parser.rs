use cmark::{
    parse_document, Edge, FeedError, NodeType, NulError, Parser, ParserOptions, DEFAULT,
    HARDBREAKS, NORMALIZE, SMART, SOURCEPOS,
};

#[test]
fn basic_parse() {
    let markdown = "**Hi**";
    let tree = parse_document(markdown, ParserOptions::from_bits(DEFAULT)).unwrap();

    assert!(tree.node_type() == NodeType::Document);
    let paragraph = tree.first_child().unwrap();
    assert!(paragraph.node_type() == NodeType::Paragraph);
    let strong = paragraph.first_child().unwrap();
    assert!(strong.node_type() == NodeType::Strong);
    let text = strong.first_child().unwrap();
    assert!(text.literal().unwrap() == "Hi");
}

#[test]
fn walk_of_strong_text() {
    let tree = parse_document("**Hi**", ParserOptions::empty()).unwrap();
    let names: Vec<String> = tree
        .walk()
        .iter()
        .map(|e| match e {
            Edge::Enter { name, .. } => name.clone(),
            Edge::Exit => String::from("/"),
        })
        .collect();
    assert_eq!(names, vec!["document", "paragraph", "strong", "text", "/", "/", "/", "/"]);
}

#[test]
fn text_node_has_no_children() {
    let tree = parse_document("plain", ParserOptions::empty()).unwrap();
    let paragraph = tree.first_child().unwrap();
    let text = paragraph.first_child().unwrap();
    assert_eq!(text.node_type(), NodeType::Text);
    assert_eq!(text.literal(), Some(String::from("plain")));
    assert!(text.first_child().is_none());
    assert_eq!(paragraph.literal(), None);
    assert_eq!(tree.literal(), None);
}

#[test]
fn empty_text_gives_bare_document() {
    let tree = parse_document("", ParserOptions::empty()).unwrap();
    assert_eq!(tree.node_type(), NodeType::Document);
    assert!(tree.first_child().is_none());
    assert_eq!(tree.walk().len(), 2);
}

#[test]
fn construct_and_drop_without_input() {
    let parser = Parser::new(ParserOptions::from_bits(DEFAULT));
    drop(parser);
}

#[test]
fn repeated_sessions() {
    for i in 0..2000 {
        let mut parser = Parser::new(ParserOptions::empty());
        if i % 2 == 0 {
            parser.feed("# Title\n\nSome *text*.").unwrap();
        }
        let tree = parser.finish();
        assert_eq!(tree.node_type(), NodeType::Document);
    }
}

#[test]
fn feed_refuses_nul_byte() {
    let mut parser = Parser::new(ParserOptions::empty());
    parser.feed("x").unwrap();
    assert_eq!(
        parser.feed("ab\0cd"),
        Err(FeedError::Nul(NulError { position: 2 }))
    );
    let tree = parser.finish();
    let text = tree.first_child().unwrap().first_child().unwrap();
    assert_eq!(text.literal(), Some(String::from("x")));
}

#[test]
fn nul_position_counts_bytes() {
    assert_eq!(
        parse_document("\u{e9}\0", ParserOptions::empty()).err(),
        Some(NulError { position: 2 })
    );
    assert_eq!(NulError { position: 5 }.nul_position(), 5);
}

#[test]
fn parse_document_refuses_nul_byte() {
    let r = parse_document("abc\0def", ParserOptions::empty());
    assert_eq!(r.err(), Some(NulError { position: 3 }));
    assert!(parse_document("\0", ParserOptions::empty()).is_err());
}

#[test]
fn feed_after_finish_is_refused() {
    let mut parser = Parser::new(ParserOptions::empty());
    parser.feed("a").unwrap();
    let _ = parser.finish();
    assert_eq!(parser.feed("b"), Err(FeedError::Finished));
    let again = parser.finish();
    assert!(again.first_child().is_none());
}

#[test]
fn chunks_parse_as_whole_text() {
    let mut parser = Parser::new(ParserOptions::empty());
    parser.feed("**H").unwrap();
    parser.feed("i**\n\n> quote").unwrap();
    let chunked = parser.finish();
    let whole = parse_document("**Hi**\n\n> quote", ParserOptions::empty()).unwrap();
    assert_eq!(chunked.walk(), whole.walk());
}

#[test]
fn smart_punctuation_changes_quotes() {
    let smart = parse_document("\"Hi\"", ParserOptions::from_bits(SMART)).unwrap();
    let plain = parse_document("\"Hi\"", ParserOptions::empty()).unwrap();
    let texts = |t: &cmark::Node| -> String {
        t.walk()
            .iter()
            .filter_map(|e| match e {
                Edge::Enter { literal: Some(l), .. } => Some(l.clone()),
                _ => None,
            })
            .collect()
    };
    assert_eq!(texts(&plain), "\"Hi\"");
    assert_eq!(texts(&smart), "\u{201c}Hi\u{201d}");
}

#[test]
fn option_bits() {
    assert_eq!(DEFAULT, 0);
    assert_eq!(SOURCEPOS, 2);
    assert_eq!(HARDBREAKS, 4);
    assert_eq!(NORMALIZE, 256);
    assert_eq!(SMART, 1024);
    let o = ParserOptions::from_bits(SOURCEPOS).union(ParserOptions::from_bits(SMART));
    assert_eq!(o.bits(), 1026);
    assert_eq!(o.raw(), 1026);
    assert!(o.contains(ParserOptions::from_bits(SMART)));
    assert!(!o.contains(ParserOptions::from_bits(HARDBREAKS)));
    assert!(o.smart());
    assert!(!ParserOptions::empty().smart());
    let mut p = ParserOptions::empty();
    p.insert(ParserOptions::from_bits(NORMALIZE));
    p.insert(ParserOptions::from_bits(HARDBREAKS));
    assert_eq!(p.bits(), 260);
}

#[test]
fn node_type_names() {
    assert_eq!(NodeType::from_name(&String::from("document")), NodeType::Document);
    assert_eq!(NodeType::from_name(&String::from("emph")), NodeType::Emph);
    assert_eq!(NodeType::from_name(&String::from("code_block")), NodeType::CodeBlock);
    assert_eq!(NodeType::from_name(&String::from("table")), NodeType::Unknown);
    assert_eq!(NodeType::from_name(&String::from("")), NodeType::Unknown);
}

#[test]
fn heading_and_emphasis() {
    let tree = parse_document("# A *b*", ParserOptions::empty()).unwrap();
    let heading = tree.first_child().unwrap();
    assert_eq!(heading.node_type(), NodeType::Heading);
    let text = heading.first_child().unwrap();
    assert_eq!(text.literal(), Some(String::from("A ")));
}
