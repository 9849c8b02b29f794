//! The tokens of a field annotation, as the generator reads them.

use vstd::prelude::*;

verus! {

/// One token of a field annotation, as the generator sees it.
pub enum Token {
    /// An identifier, such as `name`.
    Ident(String),
    /// A punctuation token, such as `=`, by its text.
    Punct(String),
    /// A literal, by its source text: a string literal keeps its quotes.
    Literal(String),
    /// A parenthesized group of tokens, such as an annotation's argument list.
    Group(Vec<Token>),
}

/// One annotation on a field: the segments of its path and the token
/// trees that follow it. For `header(name = "X")` the path is `header`
/// and the trees are one group holding the three argument tokens.
pub struct Attribute {
    /// The segments of the annotation's path.
    pub path: Vec<String>,
    /// The token trees that follow the path.
    pub tts: Vec<Token>,
}

/// Whether some segment of the annotation's path reads `header`.
pub open spec fn names_header(a: Attribute) -> bool {
    exists|i: int| 0 <= i < a.path@.len() && (#[trigger] a.path@[i])@ == "header"@
}

} // verus!
