use comrak::arena_tree::NodeEdge;
use vstd::prelude::*;
use vstd::string::*;

use crate::node::{Edge, Node};
use crate::options::ParserOptions;

verus! {

/// The preorder walk over the document tree that comrak builds from `text`,
/// with smart punctuation when `smart` holds.
pub uninterp spec fn markdown_walk(text: Seq<char>, smart: bool) -> Seq<Edge>;

/// Relies on comrak::parse_document, which builds the document tree of
/// `text`, and on comrak's `Node::traverse`, which walks that tree in preorder
/// from the start of the root to its end; each start becomes an `Enter` with
/// the kind's CommonMark name (`NodeValue::xml_node_name`) and the text of a
/// text node (`NodeValue::text`), each end an `Exit`.
#[verifier::external_body]
fn markdown_edges(text: &str, smart: bool) -> (r: Vec<Edge>)
    ensures
        r@ == markdown_walk(text@, smart),
{
    let arena = comrak::Arena::new();
    let mut options = comrak::Options::default();
    options.parse.smart = smart;
    let root = comrak::parse_document(&arena, text, &options);
    root.traverse().map(|edge| match edge {
        NodeEdge::Start(n) => Edge::Enter {
            name: n.data.borrow().value.xml_node_name().to_string(),
            literal: n.data.borrow().value.text().map(|t| t.to_string()),
        },
        NodeEdge::End(_) => Edge::Exit,
    }).collect()
}

/// Whether no byte of `b` is zero.
pub open spec fn no_nul(b: Seq<u8>) -> bool {
    forall|i: int| 0 <= i < b.len() ==> b[i] != 0
}

/// Whether `p` is the position of the first zero byte of `b`.
pub open spec fn is_first_nul(b: Seq<u8>, p: int) -> bool {
    &&& 0 <= p < b.len()
    &&& b[p] == 0
    &&& no_nul(b.subrange(0, p))
}

/// The text handed to the parser held a zero byte, which a native text
/// buffer cannot carry.
#[derive(Clone, Copy, Debug, PartialEq, Eq, Structural)]
pub struct NulError {
    pub position: usize,
}

impl NulError {
    /// The byte offset of the first zero byte.
    pub fn nul_position(&self) -> (r: usize)
        ensures
            r == self.position,
    {
        self.position
    }
}

/// Why a chunk of text was not taken.
#[derive(Clone, Copy, Debug, PartialEq, Eq, Structural)]
pub enum FeedError {
    /// The chunk holds a zero byte.
    Nul(NulError),
    /// The session was finished already.
    Finished,
}

/// The position of the first zero byte of `data`, if it has one.
fn find_nul(data: &str) -> (r: Option<usize>)
    ensures
        match r {
            Some(p) => is_first_nul(data.spec_bytes(), p as int),
            None => no_nul(data.spec_bytes()),
        },
{
    let bytes = data.as_bytes();
    let mut i: usize = 0;
    while i < bytes.len()
        invariant
            bytes@ == data.spec_bytes(),
            i <= bytes@.len(),
            no_nul(bytes@.subrange(0, i as int)),
        decreases bytes@.len() - i,
    {
        if bytes[i] == 0 {
            return Some(i);
        }
        assert(bytes@.subrange(0, i + 1) =~= bytes@.subrange(0, i as int).push(bytes@[i as int]));
        i = i + 1;
    }
    assert(bytes@.subrange(0, i as int) =~= bytes@);
    None
}

/// An incremental parsing session: text is fed in chunks, and finishing
/// yields the document tree of all the text fed since the session began.
pub struct Parser {
    options: ParserOptions,
    buffer: String,
    finished: bool,
}

impl Parser {
    /// The options the session parses with.
    pub closed spec fn options_of(&self) -> ParserOptions {
        self.options
    }

    /// The text fed so far and not yet parsed.
    pub closed spec fn text(&self) -> Seq<char> {
        self.buffer@
    }

    /// Whether the session has been finished.
    pub closed spec fn is_finished(&self) -> bool {
        self.finished
    }

    /// A fresh session with the given options.
    pub fn new(options: ParserOptions) -> (r: Parser)
        ensures
            r.options_of() == options,
            r.text() == Seq::<char>::empty(),
            !r.is_finished(),
    {
        Parser { options, buffer: String::new(), finished: false }
    }

    /// Appends a chunk of text. A chunk with a zero byte is refused whole,
    /// as is any chunk once the session is finished; a refused chunk leaves
    /// the session as it was.
    pub fn feed(&mut self, data: &str) -> (r: Result<(), FeedError>)
        ensures
            final(self).options_of() == old(self).options_of(),
            final(self).is_finished() == old(self).is_finished(),
            old(self).is_finished() ==> r == Err::<(), FeedError>(FeedError::Finished),
            !old(self).is_finished() ==> match r {
                Ok(()) => no_nul(data.spec_bytes()),
                Err(FeedError::Nul(e)) => is_first_nul(data.spec_bytes(), e.position as int),
                Err(FeedError::Finished) => false,
            },
            r is Ok ==> final(self).text() == old(self).text() + data@,
            r is Err ==> final(self).text() == old(self).text(),
    {
        if self.finished {
            return Err(FeedError::Finished);
        }
        match find_nul(data) {
            Some(p) => Err(FeedError::Nul(NulError { position: p })),
            None => {
                self.buffer.append(data);
                Ok(())
            },
        }
    }

    /// Ends the input and returns the document tree of all the text fed.
    /// The session is finished afterwards and holds no text: finishing it
    /// again yields the tree of empty text.
    pub fn finish(&mut self) -> (r: Node)
        ensures
            r@ == markdown_walk(old(self).text(), old(self).options_of().is_smart()),
            final(self).options_of() == old(self).options_of(),
            final(self).text() == Seq::<char>::empty(),
            final(self).is_finished(),
    {
        let mut text = String::new();
        std::mem::swap(&mut text, &mut self.buffer);
        self.finished = true;
        Node::from_edges(markdown_edges(text.as_str(), self.options.smart()))
    }
}

/// Feeding a whole text to a fresh session and finishing it yields the same
/// tree as parsing the text at once.
pub proof fn lemma_session_matches_one_shot(options: ParserOptions, doc: Seq<char>)
    ensures
        markdown_walk(Seq::<char>::empty() + doc, options.is_smart()) == markdown_walk(
            doc,
            options.is_smart(),
        ),
{
    assert(Seq::<char>::empty() + doc =~= doc);
}

/// Parses a whole text at once: the tree that a fresh session yields after
/// being fed `doc` and finished. Fails on a text with a zero byte.
pub fn parse_document(doc: &str, options: ParserOptions) -> (r: Result<Node, NulError>)
    ensures
        match r {
            Ok(n) => no_nul(doc.spec_bytes()) && n@ == markdown_walk(doc@, options.is_smart()),
            Err(e) => is_first_nul(doc.spec_bytes(), e.position as int),
        },
{
    match find_nul(doc) {
        Some(p) => Err(NulError { position: p }),
        None => Ok(Node::from_edges(markdown_edges(doc, options.smart()))),
    }
}

} // verus!
