//! A plain model of the pieces of Rust syntax that the macros read.

use vstd::prelude::*;

verus! {

/// The right-hand side of `name = value` in an attribute or an argument.
#[derive(Debug, PartialEq, Eq)]
pub enum MetaValue {
    /// A string literal, with the value it denotes.
    Str(String),
    /// Any other literal.
    Literal,
    /// A path expression such as `a::b`; `qualified` when it has a
    /// qualified self type, as in `<T as Trait>::Name`.
    Path { qualified: bool },
    /// Any other expression.
    Other,
}

/// The shape of a meta item: `path`, `path(...)` or `path = value`.
#[derive(Debug, PartialEq, Eq)]
pub enum MetaForm {
    Path,
    List,
    NameValue(MetaValue),
}

/// A meta item, as in `#[meta]` or in a comma-separated argument list.
#[derive(Debug, PartialEq, Eq)]
pub struct MetaItem {
    /// The text of the identifier when the path is a single identifier
    /// (no leading `::`, one segment, no generic arguments); raw
    /// identifiers keep their `r#` prefix.
    pub ident: Option<String>,
    pub form: MetaForm,
}

/// An outer attribute `#[meta]`.
#[derive(Debug, PartialEq, Eq)]
pub struct Attr {
    pub meta: MetaItem,
    /// The parenthesized arguments read as a comma-separated list of meta
    /// items, or the parser's message where they cannot be read so.
    pub args: Result<Vec<MetaItem>, String>,
}

/// `text` with a leading `r#` removed, as identifiers are compared once
/// their raw marker is dropped.
pub open spec fn unraw_text(text: Seq<char>) -> Seq<char> {
    if text.len() >= 2 && text[0] == 'r' && text[1] == '#' {
        text.skip(2)
    } else {
        text
    }
}

/// The meta item's path is the single identifier `name`.
pub open spec fn meta_is(m: MetaItem, name: Seq<char>) -> bool {
    m.ident matches Some(id) && id@ == name
}

/// The attribute's path is the single identifier `name`.
pub open spec fn attr_is(a: Attr, name: Seq<char>) -> bool {
    meta_is(a.meta, name)
}

/// Whether `text` equals the literal `lit`.
pub fn text_is(text: &String, lit: &str) -> (b: bool)
    ensures
        b == (text@ == lit@),
{
    let other = String::from_str(lit);
    *text == other
}

/// Whether the meta item's path is the single identifier `name`.
pub fn meta_named(m: &MetaItem, name: &str) -> (b: bool)
    ensures
        b == meta_is(*m, name@),
{
    match &m.ident {
        Some(id) => text_is(id, name),
        None => false,
    }
}

/// The identifier's text without its raw marker.
pub fn unraw(text: &String) -> (r: String)
    ensures
        r@ == unraw_text(text@),
{
    let s = text.as_str();
    let n = s.unicode_len();
    if n >= 2 && s.get_char(0) == 'r' && s.get_char(1) == '#' {
        let rest = s.substring_char(2, n);
        String::from_str(rest)
    } else {
        text.clone()
    }
}

} // verus!
