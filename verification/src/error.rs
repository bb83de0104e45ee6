//! What a refused declaration is answered: a message and the piece of the
//! input it points at.

use vstd::prelude::*;

verus! {

/// Why a declaration was refused.
#[derive(Debug, PartialEq, Eq)]
pub enum ErrorKind {
    ExpectedCratePath,
    ExpectedSingleCrateArgument,
    InvalidTraitShape,
    UnsupportedAttribute,
    ExpectedQueryMethod,
    InvalidMethodSignature,
    ReservedMethodName,
    DuplicateQuery,
    ExpectedQueryForm,
    MissingQuery,
    Receiver,
    ArgumentAttribute,
    ArgumentPattern,
    ColumnOnStruct,
    DuplicateFromRow,
    /// The arguments of a `from_row` attribute could not be read; the parser's message.
    AttributeArguments(String),
    NotAStruct,
    UnitStruct,
    FromRowOnField,
    DuplicateColumn,
    ExpectedColumnForm,
    ExpectedColumnString,
}

/// The piece of the input that an error points at.
#[derive(Debug, PartialEq, Eq, Clone, Copy)]
pub enum Target {
    /// The `k`-th argument of `#[queries(...)]`.
    Argument(usize),
    /// The whole trait or type declaration.
    Item,
    /// The `j`-th attribute of the trait or type.
    Attribute(usize),
    /// The `i`-th item of the trait.
    Member(usize),
    /// The name of the `i`-th method.
    MethodName(usize),
    /// Attribute `j` of method `i`.
    MethodAttribute(usize, usize),
    /// Input `j` of method `i`.
    Input(usize, usize),
    /// The first attribute of input `j` of method `i`.
    InputAttribute(usize, usize),
    /// The pattern of input `j` of method `i`.
    InputPattern(usize, usize),
    /// Argument `k` of the type's attribute `j`.
    AttributeArgument(usize, usize),
    /// Attribute `j` of field `f`.
    FieldAttribute(usize, usize),
    /// The `name = value` meta item of attribute `j` of field `f`.
    FieldAttributeMeta(usize, usize),
    /// The value of attribute `j` of field `f`.
    FieldAttributeValue(usize, usize),
}

/// A refusal.
#[derive(Debug, PartialEq, Eq)]
pub struct MacroError {
    pub kind: ErrorKind,
    pub target: Target,
}

/// Why reading a declaration from source text failed.
#[derive(Debug, PartialEq, Eq)]
pub enum SourceError {
    /// The text is not the syntax expected; the parser's message.
    Syntax(String),
    /// The syntax was read, and a rule refused it.
    Rule(MacroError),
}

/// The message that a refusal of this kind reports.
pub open spec fn message_text(kind: ErrorKind) -> Seq<char> {
    match kind {
        ErrorKind::ExpectedCratePath => "expected a crate path"@,
        ErrorKind::ExpectedSingleCrateArgument => "expected a single `crate = path` argument"@,
        ErrorKind::InvalidTraitShape => "query traits cannot be unsafe, auto, generic, or have bounds"@,
        ErrorKind::UnsupportedAttribute => "unsupported query attribute"@,
        ErrorKind::ExpectedQueryMethod => "expected a query method"@,
        ErrorKind::InvalidMethodSignature =>
            "query methods must be synchronous declarations without qualifiers, generics, or bodies"@,
        ErrorKind::ReservedMethodName => "this name is reserved for a generated method"@,
        ErrorKind::DuplicateQuery => "duplicate query attribute"@,
        ErrorKind::ExpectedQueryForm => "expected `#[query = SQL]`"@,
        ErrorKind::MissingQuery => "missing `#[query = SQL]` attribute"@,
        ErrorKind::Receiver => "query declarations must not have a receiver"@,
        ErrorKind::ArgumentAttribute => "query arguments cannot have attributes"@,
        ErrorKind::ArgumentPattern => "query arguments must have simple names"@,
        ErrorKind::ColumnOnStruct => "column attributes belong on fields"@,
        ErrorKind::DuplicateFromRow => "duplicate from_row attribute"@,
        ErrorKind::AttributeArguments(message) => message@,
        ErrorKind::NotAStruct => "FromRow requires a struct"@,
        ErrorKind::UnitStruct => "FromRow requires a named or tuple struct"@,
        ErrorKind::FromRowOnField => "from_row attributes belong on the struct"@,
        ErrorKind::DuplicateColumn => "duplicate column attribute"@,
        ErrorKind::ExpectedColumnForm => "expected `#[column = \"name\"]`"@,
        ErrorKind::ExpectedColumnString => "expected a column name string"@,
    }
}

/// A refusal of kind `kind` pointing at `target`.
pub open spec fn refuse(kind: ErrorKind, target: Target) -> MacroError {
    MacroError { kind, target }
}

impl MacroError {
    /// The message of this refusal.
    pub fn message(&self) -> (m: String)
        ensures
            m@ == message_text(self.kind),
    {
        let text: &str = match &self.kind {
            ErrorKind::ExpectedCratePath => "expected a crate path",
            ErrorKind::ExpectedSingleCrateArgument => "expected a single `crate = path` argument",
            ErrorKind::InvalidTraitShape => "query traits cannot be unsafe, auto, generic, or have bounds",
            ErrorKind::UnsupportedAttribute => "unsupported query attribute",
            ErrorKind::ExpectedQueryMethod => "expected a query method",
            ErrorKind::InvalidMethodSignature =>
                "query methods must be synchronous declarations without qualifiers, generics, or bodies",
            ErrorKind::ReservedMethodName => "this name is reserved for a generated method",
            ErrorKind::DuplicateQuery => "duplicate query attribute",
            ErrorKind::ExpectedQueryForm => "expected `#[query = SQL]`",
            ErrorKind::MissingQuery => "missing `#[query = SQL]` attribute",
            ErrorKind::Receiver => "query declarations must not have a receiver",
            ErrorKind::ArgumentAttribute => "query arguments cannot have attributes",
            ErrorKind::ArgumentPattern => "query arguments must have simple names",
            ErrorKind::ColumnOnStruct => "column attributes belong on fields",
            ErrorKind::DuplicateFromRow => "duplicate from_row attribute",
            ErrorKind::AttributeArguments(message) => message.as_str(),
            ErrorKind::NotAStruct => "FromRow requires a struct",
            ErrorKind::UnitStruct => "FromRow requires a named or tuple struct",
            ErrorKind::FromRowOnField => "from_row attributes belong on the struct",
            ErrorKind::DuplicateColumn => "duplicate column attribute",
            ErrorKind::ExpectedColumnForm => "expected `#[column = \"name\"]`",
            ErrorKind::ExpectedColumnString => "expected a column name string",
        };
        String::from_str(text)
    }
}

} // verus!
