//! Markdown parsing sessions with verified option handling, input checks
//! and document-tree access.

pub mod node;
pub mod options;
pub mod parser;

pub use node::{Edge, Node, NodeRef, NodeType};
pub use options::{ParserOptions, DEFAULT, HARDBREAKS, NORMALIZE, SMART, SOURCEPOS};
pub use parser::{parse_document, FeedError, NulError, Parser};
