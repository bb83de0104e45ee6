//! The rules of `#[derive(FromRow)]`: which types are accepted, what each
//! is refused with, and which column each field is read from.

use vstd::prelude::*;
use crate::syntax::{Attr, MetaForm, MetaValue, attr_is, meta_named, unraw, unraw_text};
use crate::error::{ErrorKind, MacroError, Target, refuse};
use crate::krate::{CrateRef, crate_path, crate_choice};
use crate::search::{first, lemma_first_is, lemma_first_none};

verus! {

/// A field of the deriving type.
#[derive(Debug, PartialEq, Eq)]
pub struct RowField {
    pub attrs: Vec<Attr>,
    /// The field's identifier as written (`r#` kept); none for a tuple field.
    pub ident: Option<String>,
}

/// The body of the deriving type.
#[derive(Debug, PartialEq, Eq)]
pub enum RowData {
    /// A struct with named fields, `struct S { .. }`.
    Named(Vec<RowField>),
    /// A tuple struct, `struct S(..);`.
    Unnamed(Vec<RowField>),
    /// A unit struct, `struct S;`.
    Unit,
    Enum,
    Union,
}

/// A type given to `#[derive(FromRow)]`.
#[derive(Debug, PartialEq, Eq)]
pub struct RowInput {
    pub attrs: Vec<Attr>,
    pub data: RowData,
}

/// Where the generated impl finds the runtime crate.
#[derive(Debug, PartialEq, Eq, Clone, Copy)]
pub enum RowCrate {
    /// No `from_row` attribute: `::queries_rusqlite`.
    Default,
    /// The crate chosen by the arguments of the type's `j`-th attribute, `#[from_row(..)]`.
    Attribute(usize, CrateRef),
}

/// The column a field is read from.
#[derive(Debug, PartialEq, Eq)]
pub enum Column {
    /// The string literal of the field's `j`-th attribute, `#[column = "name"]`.
    Attribute(usize),
    /// The column named like the field, raw marker dropped.
    Name(String),
    /// The zero-based column position of a tuple field.
    Position(usize),
}

/// The impl generated for an accepted type.
#[derive(Debug, PartialEq, Eq)]
pub struct RowPlan {
    pub krate: RowCrate,
    /// The type is built with `Self { .. }` rather than `Self(..)`.
    pub named: bool,
    /// One column per field, in field order.
    pub columns: Vec<Column>,
}

// ---------------------------------------------------------------- specs

/// Some attribute before position `j` is named `name`.
pub open spec fn named_before(attrs: Seq<Attr>, name: Seq<char>, j: int) -> bool {
    exists|k: int| 0 <= k < j && #[trigger] attr_is(attrs[k], name)
}

/// A refusal from the arguments of the type's `j`-th attribute, pointed
/// inside that attribute.
pub open spec fn within_attribute(e: MacroError, j: usize) -> MacroError {
    match e.target {
        Target::Argument(k) => refuse(e.kind, Target::AttributeArgument(j, k)),
        _ => e,
    }
}

/// What the type's `j`-th attribute is refused with, if anything.
pub open spec fn type_attr_failure(attrs: Seq<Attr>, j: int) -> Option<MacroError> {
    let a = attrs[j];
    if attr_is(a, "column"@) {
        Some(refuse(ErrorKind::ColumnOnStruct, Target::Attribute(j as usize)))
    } else if attr_is(a, "from_row"@) {
        if named_before(attrs, "from_row"@, j) {
            Some(refuse(ErrorKind::DuplicateFromRow, Target::Attribute(j as usize)))
        } else {
            match a.args {
                Err(message) => Some(refuse(ErrorKind::AttributeArguments(message), Target::Attribute(j as usize))),
                Ok(args) => match crate_choice(args@) {
                    Err(e) => Some(within_attribute(e, j as usize)),
                    Ok(_) => None,
                },
            }
        }
    } else {
        None
    }
}

/// Positions of type attributes that are refused.
pub open spec fn type_attr_fault_at(attrs: Seq<Attr>) -> spec_fn(int) -> bool {
    |j: int| type_attr_failure(attrs, j) is Some
}

/// What attribute `j` of field `f` is refused with, if anything.
pub open spec fn field_attr_failure(attrs: Seq<Attr>, f: usize, j: int) -> Option<MacroError> {
    let a = attrs[j];
    if attr_is(a, "from_row"@) {
        Some(refuse(ErrorKind::FromRowOnField, Target::FieldAttribute(f, j as usize)))
    } else if attr_is(a, "column"@) {
        if named_before(attrs, "column"@, j) {
            Some(refuse(ErrorKind::DuplicateColumn, Target::FieldAttribute(f, j as usize)))
        } else {
            match a.meta.form {
                MetaForm::NameValue(MetaValue::Str(_)) => None,
                MetaForm::NameValue(MetaValue::Literal) => Some(
                    refuse(ErrorKind::ExpectedColumnString, Target::FieldAttributeValue(f, j as usize)),
                ),
                MetaForm::NameValue(_) => Some(
                    refuse(ErrorKind::ExpectedColumnString, Target::FieldAttributeMeta(f, j as usize)),
                ),
                _ => Some(refuse(ErrorKind::ExpectedColumnForm, Target::FieldAttribute(f, j as usize))),
            }
        }
    } else {
        None
    }
}

/// Positions of a field's attributes that are refused.
pub open spec fn field_attr_fault_at(attrs: Seq<Attr>) -> spec_fn(int) -> bool {
    |j: int| field_attr_failure(attrs, 0, j) is Some
}

/// What field `f` is refused with, if anything: its first refused attribute.
pub open spec fn field_failure(field: RowField, f: usize) -> Option<MacroError> {
    let attrs = field.attrs@;
    if let Some(j) = first(field_attr_fault_at(attrs), attrs.len() as int) {
        field_attr_failure(attrs, f, j)
    } else {
        None
    }
}

/// Positions of fields that are refused.
pub open spec fn field_fault_at(fields: Seq<RowField>) -> spec_fn(int) -> bool {
    |f: int| field_failure(fields[f], 0) is Some
}

/// The fields of a struct body.
pub open spec fn row_fields(data: RowData) -> Seq<RowField> {
    match data {
        RowData::Named(fields) => fields@,
        RowData::Unnamed(fields) => fields@,
        _ => Seq::empty(),
    }
}

/// What `#[derive(FromRow)]` on `t` is refused with, if anything: the type's
/// attributes first, then its kind, then its fields in order.
pub open spec fn row_failure(t: RowInput) -> Option<MacroError> {
    let attrs = t.attrs@;
    let fields = row_fields(t.data);
    if let Some(j) = first(type_attr_fault_at(attrs), attrs.len() as int) {
        type_attr_failure(attrs, j)
    } else if t.data is Enum || t.data is Union {
        Some(refuse(ErrorKind::NotAStruct, Target::Item))
    } else if t.data is Unit {
        Some(refuse(ErrorKind::UnitStruct, Target::Item))
    } else if let Some(f) = first(field_fault_at(fields), fields.len() as int) {
        field_failure(fields[f], f as usize)
    } else {
        None
    }
}

/// `c` is the column of field `field`, the `f`-th: its `#[column]`
/// attribute, else its name without raw marker, else its position.
pub open spec fn column_planned(field: RowField, f: usize, c: Column) -> bool {
    let attrs = field.attrs@;
    match c {
        Column::Attribute(j) => j < attrs.len() && attr_is(attrs[j as int], "column"@),
        Column::Name(name) => {
            &&& !named_before(attrs, "column"@, attrs.len() as int)
            &&& field.ident matches Some(id) && name@ == unraw_text(id@)
        },
        Column::Position(k) => !named_before(attrs, "column"@, attrs.len() as int) && field.ident is None && k
            == f,
    }
}

/// `k` is the crate chosen by the type's attributes.
pub open spec fn crate_planned(attrs: Seq<Attr>, k: RowCrate) -> bool {
    match k {
        RowCrate::Default => !named_before(attrs, "from_row"@, attrs.len() as int),
        RowCrate::Attribute(j, c) => {
            &&& j < attrs.len()
            &&& attr_is(attrs[j as int], "from_row"@)
            &&& attrs[j as int].args matches Ok(args) && crate_choice(args@) == Ok::<CrateRef, MacroError>(c)
        },
    }
}

/// `p` is the plan of the accepted type `t`.
pub open spec fn row_planned(t: RowInput, p: RowPlan) -> bool {
    let fields = row_fields(t.data);
    &&& crate_planned(t.attrs@, p.krate)
    &&& p.named == t.data is Named
    &&& p.columns.len() == fields.len()
    &&& forall|f: int| 0 <= f < fields.len() ==> column_planned(fields[f], f as usize, #[trigger] p.columns@[f])
}

// ---------------------------------------------------------------- code

/// Points a refusal from the arguments of the type's `j`-th attribute inside that attribute.
fn point_within(e: MacroError, j: usize) -> (r: MacroError)
    ensures
        r == within_attribute(e, j),
{
    match e.target {
        Target::Argument(k) => MacroError { kind: e.kind, target: Target::AttributeArgument(j, k) },
        _ => e,
    }
}

/// Checks the attributes of field `f` and chooses the column it is read from.
pub fn field_column(field: &RowField, f: usize) -> (r: Result<Column, MacroError>)
    ensures
        match r {
            Ok(c) => field_failure(*field, f) is None && column_planned(*field, f, c),
            Err(e) => field_failure(*field, f) == Some(e),
        },
{
    let attrs = &field.attrs;
    let ghost sa = attrs@;
    let mut column: Option<usize> = None;
    let mut j: usize = 0;
    while j < attrs.len()
        invariant
            sa == attrs@,
            sa == field.attrs@,
            j <= attrs.len(),
            forall|m: int| 0 <= m < j ==> !#[trigger] field_attr_fault_at(sa)(m),
            column is None <==> !named_before(sa, "column"@, j as int),
            column matches Some(c) ==> c < j && attr_is(sa[c as int], "column"@),
        decreases attrs.len() - j,
    {
        let a = &attrs[j];
        if meta_named(&a.meta, "from_row") {
            proof {
                assert(field_attr_fault_at(sa)(j as int));
                lemma_first_is(field_attr_fault_at(sa), sa.len() as int, j as int);
            }
            return Err(MacroError { kind: ErrorKind::FromRowOnField, target: Target::FieldAttribute(f, j) });
        }
        if meta_named(&a.meta, "column") {
            let failure = if column.is_some() {
                Some(MacroError { kind: ErrorKind::DuplicateColumn, target: Target::FieldAttribute(f, j) })
            } else {
                match &a.meta.form {
                    MetaForm::NameValue(value) => match value {
                        MetaValue::Str(_) => None,
                        MetaValue::Literal => Some(
                            MacroError {
                                kind: ErrorKind::ExpectedColumnString,
                                target: Target::FieldAttributeValue(f, j),
                            },
                        ),
                        _ => Some(
                            MacroError {
                                kind: ErrorKind::ExpectedColumnString,
                                target: Target::FieldAttributeMeta(f, j),
                            },
                        ),
                    },
                    _ => Some(MacroError { kind: ErrorKind::ExpectedColumnForm, target: Target::FieldAttribute(f, j) }),
                }
            };
            if let Some(e) = failure {
                proof {
                    assert(field_attr_fault_at(sa)(j as int));
                    lemma_first_is(field_attr_fault_at(sa), sa.len() as int, j as int);
                }
                return Err(e);
            }
            column = Some(j);
            assert(named_before(sa, "column"@, j + 1)) by {
                assert(attr_is(sa[j as int], "column"@));
            }
        } else {
            assert(named_before(sa, "column"@, j as int) <==> named_before(sa, "column"@, j + 1)) by {
                if named_before(sa, "column"@, j + 1) {
                    let k = choose|k: int| 0 <= k < j + 1 && #[trigger] attr_is(sa[k], "column"@);
                    assert(k != j);
                }
            }
        }
        j = j + 1;
    }
    proof {
        lemma_first_none(field_attr_fault_at(sa), sa.len() as int);
    }
    match column {
        Some(j) => Ok(Column::Attribute(j)),
        None => match &field.ident {
            Some(name) => Ok(Column::Name(unraw(name))),
            None => Ok(Column::Position(f)),
        },
    }
}

/// Checks a type given to `#[derive(FromRow)]` and plans its impl: the
/// runtime crate, the constructor form and the column of every field.
pub fn expand_from_row(input: &RowInput) -> (r: Result<RowPlan, MacroError>)
    ensures
        match r {
            Ok(p) => row_failure(*input) is None && row_planned(*input, p),
            Err(e) => row_failure(*input) == Some(e),
        },
{
    let attrs = &input.attrs;
    let ghost sa = attrs@;
    let mut chosen: Option<(usize, CrateRef)> = None;
    let mut j: usize = 0;
    while j < attrs.len()
        invariant
            sa == attrs@,
            sa == input.attrs@,
            j <= attrs.len(),
            forall|m: int| 0 <= m < j ==> !#[trigger] type_attr_fault_at(sa)(m),
            chosen is None <==> !named_before(sa, "from_row"@, j as int),
            chosen matches Some((k, c)) ==> k < j && crate_planned(sa, RowCrate::Attribute(k, c)),
        decreases attrs.len() - j,
    {
        let a = &attrs[j];
        if meta_named(&a.meta, "column") {
            proof {
                assert(type_attr_fault_at(sa)(j as int));
                lemma_first_is(type_attr_fault_at(sa), sa.len() as int, j as int);
            }
            return Err(MacroError { kind: ErrorKind::ColumnOnStruct, target: Target::Attribute(j) });
        }
        if meta_named(&a.meta, "from_row") {
            let failure = if chosen.is_some() {
                Some(MacroError { kind: ErrorKind::DuplicateFromRow, target: Target::Attribute(j) })
            } else {
                match &a.args {
                    Err(message) => Some(
                        MacroError { kind: ErrorKind::AttributeArguments(message.clone()), target: Target::Attribute(j) },
                    ),
                    Ok(args) => match crate_path(args) {
                        Ok(c) => {
                            chosen = Some((j, c));
                            None
                        },
                        Err(e) => Some(point_within(e, j)),
                    },
                }
            };
            if let Some(e) = failure {
                proof {
                    assert(type_attr_fault_at(sa)(j as int));
                    lemma_first_is(type_attr_fault_at(sa), sa.len() as int, j as int);
                }
                return Err(e);
            }
            assert(named_before(sa, "from_row"@, j + 1)) by {
                assert(attr_is(sa[j as int], "from_row"@));
            }
        } else {
            assert(named_before(sa, "from_row"@, j as int) <==> named_before(sa, "from_row"@, j + 1)) by {
                if named_before(sa, "from_row"@, j + 1) {
                    let k = choose|k: int| 0 <= k < j + 1 && #[trigger] attr_is(sa[k], "from_row"@);
                    assert(k != j);
                }
            }
        }
        j = j + 1;
    }
    proof {
        lemma_first_none(type_attr_fault_at(sa), sa.len() as int);
    }
    let krate = match chosen {
        Some((j, c)) => RowCrate::Attribute(j, c),
        None => RowCrate::Default,
    };
    let (fields, named) = match &input.data {
        RowData::Named(fields) => (fields, true),
        RowData::Unnamed(fields) => (fields, false),
        RowData::Unit => {
            return Err(MacroError { kind: ErrorKind::UnitStruct, target: Target::Item });
        },
        _ => {
            return Err(MacroError { kind: ErrorKind::NotAStruct, target: Target::Item });
        },
    };
    let ghost sf = fields@;
    let mut columns: Vec<Column> = Vec::new();
    let mut f: usize = 0;
    while f < fields.len()
        invariant
            sf == fields@,
            sf == row_fields(input.data),
            first(type_attr_fault_at(input.attrs@), input.attrs@.len() as int) is None,
            !(input.data is Enum || input.data is Union || input.data is Unit),
            f <= fields.len(),
            forall|m: int| 0 <= m < f ==> !#[trigger] field_fault_at(sf)(m),
            columns@.len() == f,
            forall|k: int| 0 <= k < f ==> column_planned(sf[k], k as usize, #[trigger] columns@[k]),
        decreases fields.len() - f,
    {
        match field_column(&fields[f], f) {
            Ok(c) => {
                columns.push(c);
            },
            Err(e) => {
                proof {
                    assert(field_fault_at(sf)(f as int));
                    lemma_first_is(field_fault_at(sf), sf.len() as int, f as int);
                }
                return Err(e);
            },
        }
        f = f + 1;
    }
    proof {
        lemma_first_none(field_fault_at(sf), sf.len() as int);
    }
    Ok(RowPlan { krate, named, columns })
}

} // verus!
