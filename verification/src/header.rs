//! The parser for the `header(name = "<text>")` field annotation.

use vstd::prelude::*;

use crate::tokens::{Attribute, Token};

verus! {

/// Why a `header` annotation was rejected. Each variant names the argument
/// token that broke the pattern `header(name = "<text>")` and what was
/// expected of it.
pub enum HeaderError {
    /// The annotation's arguments are not a parenthesized group.
    NoArgumentList,
    /// The argument group holds fewer than the three expected tokens.
    MissingTokens,
    /// The first argument token is not an identifier.
    KeyNotIdent,
    /// The first argument token is an identifier other than `name`.
    KeyNotName { found: String },
    /// The second argument token is not punctuation.
    SeparatorNotPunct,
    /// The second argument token is punctuation other than `=`.
    SeparatorNotEquals { found: String },
    /// The third argument token is not a literal.
    ValueNotLiteral,
    /// The third argument token is a literal other than a string literal.
    ValueNotString { found: String },
    /// The argument group holds more than the three expected tokens.
    ExtraTokens,
}

/// Whether a literal's source text is a string literal: at least two
/// characters, enclosed in double quotes.
pub open spec fn is_string_literal(l: Seq<char>) -> bool {
    l.len() >= 2 && l[0] == '"' && l[l.len() - 1] == '"'
}

/// The content of a string literal: its text with the two surrounding
/// quote characters stripped, escape sequences left as they stand.
pub open spec fn literal_content(l: Seq<char>) -> Seq<char> {
    l.subrange(1, l.len() - 1)
}

/// What parsing the argument tokens of a `header` annotation gives: the
/// label of `name = "<label>"`, or the error for the first token that
/// broke that pattern.
pub open spec fn parse_args(ts: Seq<Token>) -> Result<Seq<char>, HeaderError> {
    if ts.len() < 3 {
        Err(HeaderError::MissingTokens)
    } else {
        match ts[0] {
            Token::Ident(k) => if k@ == "name"@ {
                match ts[1] {
                    Token::Punct(p) => if p@ == "="@ {
                        match ts[2] {
                            Token::Literal(l) => if is_string_literal(l@) {
                                if ts.len() == 3 {
                                    Ok(literal_content(l@))
                                } else {
                                    Err(HeaderError::ExtraTokens)
                                }
                            } else {
                                Err(HeaderError::ValueNotString { found: l })
                            },
                            _ => Err(HeaderError::ValueNotLiteral),
                        }
                    } else {
                        Err(HeaderError::SeparatorNotEquals { found: p })
                    },
                    _ => Err(HeaderError::SeparatorNotPunct),
                }
            } else {
                Err(HeaderError::KeyNotName { found: k })
            },
            _ => Err(HeaderError::KeyNotIdent),
        }
    }
}

/// What parsing a whole `header` annotation gives: its arguments must be a
/// single parenthesized group whose tokens match `name = "<label>"`.
pub open spec fn parse_header_attr(a: Attribute) -> Result<Seq<char>, HeaderError> {
    if a.tts@.len() >= 1 && a.tts@[0] is Group {
        parse_args(a.tts@[0]->Group_0@)
    } else {
        Err(HeaderError::NoArgumentList)
    }
}

/// Whether an executable parse result carries the same outcome as its model:
/// the same label, or the very same error.
pub open spec fn label_result_matches(
    r: Result<String, HeaderError>,
    m: Result<Seq<char>, HeaderError>,
) -> bool {
    match r {
        Ok(s) => m == Ok::<Seq<char>, HeaderError>(s@),
        Err(e) => m == Err::<Seq<char>, HeaderError>(e),
    }
}

/// The three argument tokens that a `header` annotation must carry:
/// the identifier `name`, the punctuation `=`, and a string literal.
pub open spec fn well_formed_args(ts: Seq<Token>) -> bool {
    ts.len() == 3 && (ts[0] matches Token::Ident(k) && k@ == "name"@) && (ts[1]
        matches Token::Punct(p) && p@ == "="@) && (ts[2] matches Token::Literal(l)
        && is_string_literal(l@))
}

/// A header annotation parses to a label exactly when its arguments are one
/// group of the three tokens `name`, `=` and a string literal; on any other
/// shape the parse fails, and never falls back to a default.
pub proof fn lemma_malformed_header_rejected(a: Attribute)
    ensures
        parse_header_attr(a) is Ok <==> (a.tts@.len() >= 1 && a.tts@[0] is Group
            && well_formed_args(a.tts@[0]->Group_0@)),
{
}

/// Parses the label out of a field annotation `header(name = "<label>")`.
///
/// The arguments must be one parenthesized group of exactly the three
/// tokens `name`, `=` and a string literal, in that order; the label is
/// the literal's content with its surrounding quotes stripped. Any other
/// shape gives the error naming the first expectation that failed.
pub fn parse_header_name_param(attr: &Attribute) -> (r: Result<String, HeaderError>)
    ensures
        label_result_matches(r, parse_header_attr(*attr)),
{
    if attr.tts.len() == 0 {
        return Err(HeaderError::NoArgumentList);
    }
    let group: &Vec<Token> = match &attr.tts[0] {
        Token::Group(inner) => inner,
        _ => { return Err(HeaderError::NoArgumentList); },
    };
    if group.len() < 3 {
        return Err(HeaderError::MissingTokens);
    }
    let key = match &group[0] {
        Token::Ident(k) => k,
        _ => { return Err(HeaderError::KeyNotIdent); },
    };
    let name_word = String::from_str("name");
    if *key != name_word {
        return Err(HeaderError::KeyNotName { found: key.clone() });
    }
    let sep = match &group[1] {
        Token::Punct(p) => p,
        _ => { return Err(HeaderError::SeparatorNotPunct); },
    };
    let equals_word = String::from_str("=");
    if *sep != equals_word {
        return Err(HeaderError::SeparatorNotEquals { found: sep.clone() });
    }
    let lit = match &group[2] {
        Token::Literal(l) => l,
        _ => { return Err(HeaderError::ValueNotLiteral); },
    };
    let n = lit.as_str().unicode_len();
    let quoted = n >= 2 && lit.as_str().get_char(0) == '"' && lit.as_str().get_char(n - 1) == '"';
    if !quoted {
        return Err(HeaderError::ValueNotString { found: lit.clone() });
    }
    if group.len() != 3 {
        return Err(HeaderError::ExtraTokens);
    }
    let content = lit.as_str().substring_char(1, n - 1);
    Ok(String::from_str(content))
}

} // verus!
