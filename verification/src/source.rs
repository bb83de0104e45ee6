//! Reading declarations from their source text, with `syn`, into the model
//! the rules are stated over; and the macros' entries from source text.

use vstd::prelude::*;
use syn::parse::Parser;
use crate::syntax::{Attr, MetaItem, MetaForm, MetaValue};
use crate::error::SourceError;
use crate::krate::{CrateRef, crate_choice, crate_path};
use crate::queries::{
    FnInput, Pattern, QueriesPlan, QueryMethod, QueryTrait, TraitMember, expand_queries, queries_failure,
    queries_planned,
};
use crate::from_row::{RowData, RowInput, RowPlan, expand_from_row, row_failure, row_planned};

verus! {

// ---------------------------------------------------------------- syntax trees of `syn`

#[verifier::external_type_specification]
#[verifier::external_body]
pub struct ExSynItemTrait(syn::ItemTrait);

#[verifier::external_type_specification]
#[verifier::external_body]
pub struct ExSynTraitItem(syn::TraitItem);

#[verifier::external_type_specification]
#[verifier::external_body]
pub struct ExSynTraitItemFn(syn::TraitItemFn);

#[verifier::external_type_specification]
#[verifier::external_body]
pub struct ExSynFnArg(syn::FnArg);

#[verifier::external_type_specification]
#[verifier::external_body]
pub struct ExSynPatType(syn::PatType);

#[verifier::external_type_specification]
#[verifier::external_body]
pub struct ExSynAttribute(syn::Attribute);

#[verifier::external_type_specification]
#[verifier::external_body]
pub struct ExSynMeta(syn::Meta);

#[verifier::external_type_specification]
#[verifier::external_body]
pub struct ExSynExpr(syn::Expr);

#[verifier::external_type_specification]
#[verifier::external_body]
pub struct ExSynDeriveInput(syn::DeriveInput);

#[verifier::external_type_specification]
#[verifier::external_body]
pub struct ExSynField(syn::Field);

// ---------------------------------------------------------------- what `syn` reads
// What the parser reads from a text is not a function of the text:
// `proc_macro2` lexes with the compiler's lexer inside a procedural macro
// and with its own elsewhere, and the two differ (identifier normalization,
// reserved prefixes). So only a relation is stated: what was read, was read
// from that text. Nothing more is said of the relations.

/// `args`, in the model, is what the parser read from `text` as a
/// comma-separated list of meta items.
pub uninterp spec fn arguments_read_from(text: Seq<char>, args: Seq<MetaItem>) -> bool;

/// `t`, in the model, is what the parser read from `text` as a trait.
pub uninterp spec fn trait_read_from(text: Seq<char>, t: QueryTrait) -> bool;

/// `t`, in the model, is what the parser read from `text` as a derive input.
pub uninterp spec fn row_read_from(text: Seq<char>, t: RowInput) -> bool;

/// Runs `Punctuated::<syn::Meta, Comma>::parse_terminated` on `text`; the
/// meta items in the model, or the parser's message. Trusted: what it
/// gives was read from `text`.
#[verifier::external_body]
fn parse_arguments(text: &str) -> (r: Result<Vec<MetaItem>, String>)
    ensures
        r matches Ok(args) ==> arguments_read_from(text@, args@),
{
    syn::punctuated::Punctuated::<syn::Meta, syn::token::Comma>::parse_terminated
        .parse_str(text)
        .map(|list| list.iter().map(|meta| meta_model(meta)).collect())
        .map_err(|error| error.to_string())
}

/// Runs `syn::parse_str::<syn::ItemTrait>` on `text`; the trait in the
/// model, or the parser's message. Trusted: what it gives was read from `text`.
#[verifier::external_body]
fn parse_trait(text: &str) -> (r: Result<QueryTrait, String>)
    ensures
        r matches Ok(t) ==> trait_read_from(text@, t),
{
    syn::parse_str::<syn::ItemTrait>(text).map(|item| trait_model(&item)).map_err(|error| error.to_string())
}

/// Runs `syn::parse_str::<syn::DeriveInput>` on `text`; the type in the
/// model, or the parser's message. Trusted: what it gives was read from `text`.
#[verifier::external_body]
fn parse_row(text: &str) -> (r: Result<RowInput, String>)
    ensures
        r matches Ok(t) ==> row_read_from(text@, t),
{
    syn::parse_str::<syn::DeriveInput>(text).map(|item| row_model(&item)).map_err(|error| error.to_string())
}

// ---------------------------------------------------------------- reading the trees
// The readers below pick one field or variant of a `syn` tree; nothing can
// be stated of them, as `syn`'s trees are opaque here.

/// `syn::Meta::path().get_ident()`, as text.
#[verifier::external_body]
fn meta_ident(meta: &syn::Meta) -> Option<String> {
    meta.path().get_ident().map(|ident| ident.to_string())
}

/// The value of `syn::Meta::NameValue`.
#[verifier::external_body]
fn meta_value(meta: &syn::Meta) -> Option<&syn::Expr> {
    match meta {
        syn::Meta::NameValue(pair) => Some(&pair.value),
        _ => None,
    }
}

/// The meta item is `syn::Meta::List`.
#[verifier::external_body]
fn meta_is_list(meta: &syn::Meta) -> bool {
    matches!(meta, syn::Meta::List(_))
}

/// The value of `LitStr::value` for an `Expr::Lit` holding `Lit::Str`.
#[verifier::external_body]
fn expr_string(value: &syn::Expr) -> Option<String> {
    match value {
        syn::Expr::Lit(syn::ExprLit { lit: syn::Lit::Str(text), .. }) => Some(text.value()),
        _ => None,
    }
}

/// The expression is `Expr::Lit`.
#[verifier::external_body]
fn expr_is_literal(value: &syn::Expr) -> bool {
    matches!(value, syn::Expr::Lit(_))
}

/// For `Expr::Path`: whether its `qself` is present.
#[verifier::external_body]
fn expr_path_qualified(value: &syn::Expr) -> Option<bool> {
    match value {
        syn::Expr::Path(path) => Some(path.qself.is_some()),
        _ => None,
    }
}

/// `Attribute::meta`.
#[verifier::external_body]
fn attr_meta(attribute: &syn::Attribute) -> &syn::Meta {
    &attribute.meta
}

/// `Attribute::parse_args_with(Punctuated::<syn::Meta, Comma>::parse_terminated)`,
/// in the model; or the parser's message.
#[verifier::external_body]
fn attr_arguments(attribute: &syn::Attribute) -> Result<Vec<MetaItem>, String> {
    attribute
        .parse_args_with(syn::punctuated::Punctuated::<syn::Meta, syn::token::Comma>::parse_terminated)
        .map(|list| list.iter().map(|meta| meta_model(meta)).collect())
        .map_err(|error| error.to_string())
}

/// `ItemTrait::attrs`.
#[verifier::external_body]
fn trait_attrs(item: &syn::ItemTrait) -> &Vec<syn::Attribute> {
    &item.attrs
}

/// `ItemTrait::unsafety` is present.
#[verifier::external_body]
fn trait_is_unsafe(item: &syn::ItemTrait) -> bool {
    item.unsafety.is_some()
}

/// `ItemTrait::modifiers.require_empty()` fails.
#[verifier::external_body]
fn trait_is_auto(item: &syn::ItemTrait) -> bool {
    item.modifiers.require_empty().is_err()
}

/// `ItemTrait::generics.params` is not empty.
#[verifier::external_body]
fn trait_has_generic_params(item: &syn::ItemTrait) -> bool {
    !item.generics.params.is_empty()
}

/// `ItemTrait::generics.where_clause` is present.
#[verifier::external_body]
fn trait_has_where_clause(item: &syn::ItemTrait) -> bool {
    item.generics.where_clause.is_some()
}

/// `ItemTrait::supertraits` is not empty.
#[verifier::external_body]
fn trait_has_supertraits(item: &syn::ItemTrait) -> bool {
    !item.supertraits.is_empty()
}

/// `ItemTrait::items`.
#[verifier::external_body]
fn trait_items(item: &syn::ItemTrait) -> &Vec<syn::TraitItem> {
    &item.items
}

/// The method of `TraitItem::Fn`.
#[verifier::external_body]
fn member_method(member: &syn::TraitItem) -> Option<&syn::TraitItemFn> {
    match member {
        syn::TraitItem::Fn(method) => Some(method),
        _ => None,
    }
}

/// `TraitItemFn::attrs`.
#[verifier::external_body]
fn method_attrs(method: &syn::TraitItemFn) -> &Vec<syn::Attribute> {
    &method.attrs
}

/// `sig.constness` is present.
#[verifier::external_body]
fn method_is_const(method: &syn::TraitItemFn) -> bool {
    method.sig.constness.is_some()
}

/// `sig.asyncness` is present.
#[verifier::external_body]
fn method_is_async(method: &syn::TraitItemFn) -> bool {
    method.sig.asyncness.is_some()
}

/// `sig.safety` is not `Safety::Default`.
#[verifier::external_body]
fn method_has_safety(method: &syn::TraitItemFn) -> bool {
    !matches!(method.sig.safety, syn::Safety::Default)
}

/// `sig.abi` is present.
#[verifier::external_body]
fn method_has_abi(method: &syn::TraitItemFn) -> bool {
    method.sig.abi.is_some()
}

/// `sig.variadic` is present.
#[verifier::external_body]
fn method_is_variadic(method: &syn::TraitItemFn) -> bool {
    method.sig.variadic.is_some()
}

/// `sig.generics.params` is not empty.
#[verifier::external_body]
fn method_has_generic_params(method: &syn::TraitItemFn) -> bool {
    !method.sig.generics.params.is_empty()
}

/// `sig.generics.where_clause` is present.
#[verifier::external_body]
fn method_has_where_clause(method: &syn::TraitItemFn) -> bool {
    method.sig.generics.where_clause.is_some()
}

/// `TraitItemFn::default` is present.
#[verifier::external_body]
fn method_has_body(method: &syn::TraitItemFn) -> bool {
    method.default.is_some()
}

/// `sig.ident`, as text.
#[verifier::external_body]
fn method_name(method: &syn::TraitItemFn) -> String {
    method.sig.ident.to_string()
}

/// `sig.inputs`, in order.
#[verifier::external_body]
fn method_inputs(method: &syn::TraitItemFn) -> Vec<&syn::FnArg> {
    method.sig.inputs.iter().collect()
}

/// `sig.output` is `ReturnType::Default`.
#[verifier::external_body]
fn method_returns_unit(method: &syn::TraitItemFn) -> bool {
    matches!(method.sig.output, syn::ReturnType::Default)
}

/// The typed input of `FnArg::Typed`.
#[verifier::external_body]
fn typed_input(input: &syn::FnArg) -> Option<&syn::PatType> {
    match input {
        syn::FnArg::Typed(typed) => Some(typed),
        syn::FnArg::Receiver(_) => None,
    }
}

/// `PatType::attrs` is not empty.
#[verifier::external_body]
fn typed_has_attributes(typed: &syn::PatType) -> bool {
    !typed.attrs.is_empty()
}

/// For `Pat::Ident`: the identifier as text, and whether `by_ref` and
/// `subpat` are present.
#[verifier::external_body]
fn typed_ident(typed: &syn::PatType) -> Option<(String, bool, bool)> {
    match &*typed.pat {
        syn::Pat::Ident(pattern) => {
            Some((pattern.ident.to_string(), pattern.by_ref.is_some(), pattern.subpat.is_some()))
        },
        _ => None,
    }
}

/// `DeriveInput::attrs`.
#[verifier::external_body]
fn input_attrs(item: &syn::DeriveInput) -> &Vec<syn::Attribute> {
    &item.attrs
}

/// The fields of `Data::Struct` with `Fields::Named`, in order.
#[verifier::external_body]
fn named_fields(item: &syn::DeriveInput) -> Option<Vec<&syn::Field>> {
    match &item.data {
        syn::Data::Struct(syn::DataStruct { fields: syn::Fields::Named(named), .. }) => Some(
            named.named.iter().collect(),
        ),
        _ => None,
    }
}

/// The fields of `Data::Struct` with `Fields::Unnamed`, in order.
#[verifier::external_body]
fn unnamed_fields(item: &syn::DeriveInput) -> Option<Vec<&syn::Field>> {
    match &item.data {
        syn::Data::Struct(syn::DataStruct { fields: syn::Fields::Unnamed(unnamed), .. }) => Some(
            unnamed.unnamed.iter().collect(),
        ),
        _ => None,
    }
}

/// `DeriveInput::data` is `Data::Enum`.
#[verifier::external_body]
fn input_is_enum(item: &syn::DeriveInput) -> bool {
    matches!(item.data, syn::Data::Enum(_))
}

/// `DeriveInput::data` is `Data::Union`.
#[verifier::external_body]
fn input_is_union(item: &syn::DeriveInput) -> bool {
    matches!(item.data, syn::Data::Union(_))
}

/// `syn::Field::attrs`.
#[verifier::external_body]
fn field_attrs(field: &syn::Field) -> &Vec<syn::Attribute> {
    &field.attrs
}

/// `syn::Field::ident`, as text.
#[verifier::external_body]
fn field_ident(field: &syn::Field) -> Option<String> {
    field.ident.as_ref().map(|ident| ident.to_string())
}

// ---------------------------------------------------------------- building the model

/// The value of a `name = value` meta item in the model.
fn value_model(value: &syn::Expr) -> MetaValue {
    match expr_string(value) {
        Some(text) => MetaValue::Str(text),
        None => if expr_is_literal(value) {
            MetaValue::Literal
        } else {
            match expr_path_qualified(value) {
                Some(qualified) => MetaValue::Path { qualified },
                None => MetaValue::Other,
            }
        },
    }
}

/// A meta item in the model.
fn meta_model(meta: &syn::Meta) -> MetaItem {
    let form = match meta_value(meta) {
        Some(value) => MetaForm::NameValue(value_model(value)),
        None => if meta_is_list(meta) {
            MetaForm::List
        } else {
            MetaForm::Path
        },
    };
    MetaItem { ident: meta_ident(meta), form }
}

/// Attributes in the model, in order.
fn attrs_model(attributes: &Vec<syn::Attribute>) -> Vec<Attr> {
    let mut attrs: Vec<Attr> = Vec::new();
    let mut j: usize = 0;
    while j < attributes.len()
        decreases attributes.len() - j,
    {
        let attribute = &attributes[j];
        attrs.push(Attr { meta: meta_model(attr_meta(attribute)), args: attr_arguments(attribute) });
        j = j + 1;
    }
    attrs
}

/// An input of a method signature in the model.
fn input_model(input: &syn::FnArg) -> FnInput {
    match typed_input(input) {
        None => FnInput::Receiver,
        Some(typed) => FnInput::Typed {
            has_attributes: typed_has_attributes(typed),
            pattern: match typed_ident(typed) {
                Some((name, by_ref, subpattern)) => Pattern::Ident { name, by_ref, subpattern },
                None => Pattern::Other,
            },
        },
    }
}

/// A method of a query trait in the model.
fn method_model(method: &syn::TraitItemFn) -> QueryMethod {
    let inputs = method_inputs(method);
    let mut model_inputs: Vec<FnInput> = Vec::new();
    let mut j: usize = 0;
    while j < inputs.len()
        decreases inputs.len() - j,
    {
        model_inputs.push(input_model(inputs[j]));
        j = j + 1;
    }
    QueryMethod {
        attrs: attrs_model(method_attrs(method)),
        is_const: method_is_const(method),
        is_async: method_is_async(method),
        has_safety: method_has_safety(method),
        has_abi: method_has_abi(method),
        is_variadic: method_is_variadic(method),
        has_generic_params: method_has_generic_params(method),
        has_where_clause: method_has_where_clause(method),
        has_body: method_has_body(method),
        name: method_name(method),
        inputs: model_inputs,
        returns_unit: method_returns_unit(method),
    }
}

/// A query trait in the model.
fn trait_model(item: &syn::ItemTrait) -> QueryTrait {
    let items = trait_items(item);
    let mut members: Vec<TraitMember> = Vec::new();
    let mut i: usize = 0;
    while i < items.len()
        decreases items.len() - i,
    {
        members.push(
            match member_method(&items[i]) {
                Some(method) => TraitMember::Method(method_model(method)),
                None => TraitMember::Other,
            },
        );
        i = i + 1;
    }
    QueryTrait {
        attrs: attrs_model(trait_attrs(item)),
        is_unsafe: trait_is_unsafe(item),
        is_auto: trait_is_auto(item),
        has_generic_params: trait_has_generic_params(item),
        has_where_clause: trait_has_where_clause(item),
        has_supertraits: trait_has_supertraits(item),
        members,
    }
}

/// The fields of a struct in the model, in order.
fn fields_model(fields: &Vec<&syn::Field>) -> Vec<crate::from_row::RowField> {
    let mut model: Vec<crate::from_row::RowField> = Vec::new();
    let mut f: usize = 0;
    while f < fields.len()
        decreases fields.len() - f,
    {
        let field = fields[f];
        model.push(crate::from_row::RowField { attrs: attrs_model(field_attrs(field)), ident: field_ident(field) });
        f = f + 1;
    }
    model
}

/// A derive input in the model.
fn row_model(item: &syn::DeriveInput) -> RowInput {
    let data = match named_fields(item) {
        Some(fields) => RowData::Named(fields_model(&fields)),
        None => match unnamed_fields(item) {
            Some(fields) => RowData::Unnamed(fields_model(&fields)),
            None => if input_is_enum(item) {
                RowData::Enum
            } else if input_is_union(item) {
                RowData::Union
            } else {
                RowData::Unit
            },
        },
    };
    RowInput { attrs: attrs_model(input_attrs(item)), data }
}

// ---------------------------------------------------------------- entries from source text

/// What was read from the text of `#[queries(..)]` and its item: the
/// arguments, if they could be read, and the trait, if it was read.
#[derive(Debug, PartialEq, Eq)]
pub struct QueriesSource {
    pub arguments: Option<Vec<MetaItem>>,
    pub item: Option<QueryTrait>,
}

/// `r` is what `#[queries]` gives for what was read, `s`: a syntax error
/// where the arguments could not be read; else the arguments' refusal;
/// else a syntax error where the trait could not be read; else the rules'
/// answer on the trait.
pub open spec fn queries_source_result(s: QueriesSource, r: Result<QueriesPlan, SourceError>) -> bool {
    match s.arguments {
        None => s.item is None && r matches Err(SourceError::Syntax(_)),
        Some(args) => match crate_choice(args@) {
            Err(e) => s.item is None && r == Err::<QueriesPlan, SourceError>(SourceError::Rule(e)),
            Ok(_) => match s.item {
                None => r matches Err(SourceError::Syntax(_)),
                Some(t) => match queries_failure(args@, t) {
                    Some(e) => r == Err::<QueriesPlan, SourceError>(SourceError::Rule(e)),
                    None => r matches Ok(p) && queries_planned(args@, t, p),
                },
            },
        },
    }
}

/// `r` is what `#[derive(FromRow)]` gives for what was read, `s`.
pub open spec fn row_source_result(s: Option<RowInput>, r: Result<RowPlan, SourceError>) -> bool {
    match s {
        None => r matches Err(SourceError::Syntax(_)),
        Some(t) => match row_failure(t) {
            Some(e) => r == Err::<RowPlan, SourceError>(SourceError::Rule(e)),
            None => r matches Ok(p) && row_planned(t, p),
        },
    }
}

/// `r` is the crate chosen by what was read, `s`.
pub open spec fn crate_source_result(s: Option<Vec<MetaItem>>, r: Result<CrateRef, SourceError>) -> bool {
    match s {
        None => r matches Err(SourceError::Syntax(_)),
        Some(args) => match crate_choice(args@) {
            Ok(c) => r == Ok::<CrateRef, SourceError>(c),
            Err(e) => r == Err::<CrateRef, SourceError>(SourceError::Rule(e)),
        },
    }
}

/// Reads `crate = path` arguments from source text and chooses the crate;
/// gives what was read with the answer.
pub fn crate_path_from_source(text: &str) -> (r: (Option<Vec<MetaItem>>, Result<CrateRef, SourceError>))
    ensures
        crate_source_result(r.0, r.1),
        r.0 matches Some(args) ==> arguments_read_from(text@, args@),
{
    let args = match parse_arguments(text) {
        Ok(args) => args,
        Err(message) => {
            return (None, Err(SourceError::Syntax(message)));
        },
    };
    let answer = match crate_path(&args) {
        Ok(c) => Ok(c),
        Err(e) => Err(SourceError::Rule(e)),
    };
    (Some(args), answer)
}

/// `#[queries(attr)]` on `item`, both given as source text; gives what was
/// read with the answer.
pub fn queries_from_source(attr: &str, item: &str) -> (r: (QueriesSource, Result<QueriesPlan, SourceError>))
    ensures
        queries_source_result(r.0, r.1),
        r.0.arguments matches Some(args) ==> arguments_read_from(attr@, args@),
        r.0.item matches Some(t) ==> trait_read_from(item@, t),
{
    let args = match parse_arguments(attr) {
        Ok(args) => args,
        Err(message) => {
            return (QueriesSource { arguments: None, item: None }, Err(SourceError::Syntax(message)));
        },
    };
    if let Err(e) = crate_path(&args) {
        return (QueriesSource { arguments: Some(args), item: None }, Err(SourceError::Rule(e)));
    }
    let t = match parse_trait(item) {
        Ok(t) => t,
        Err(message) => {
            return (QueriesSource { arguments: Some(args), item: None }, Err(SourceError::Syntax(message)));
        },
    };
    let answer = match expand_queries(&args, &t) {
        Ok(p) => Ok(p),
        Err(e) => Err(SourceError::Rule(e)),
    };
    (QueriesSource { arguments: Some(args), item: Some(t) }, answer)
}

/// `#[derive(FromRow)]` on `item`, given as source text; gives what was
/// read with the answer.
pub fn from_row_from_source(item: &str) -> (r: (Option<RowInput>, Result<RowPlan, SourceError>))
    ensures
        row_source_result(r.0, r.1),
        r.0 matches Some(t) ==> row_read_from(item@, t),
{
    let t = match parse_row(item) {
        Ok(t) => t,
        Err(message) => {
            return (None, Err(SourceError::Syntax(message)));
        },
    };
    let answer = match expand_from_row(&t) {
        Ok(p) => Ok(p),
        Err(e) => Err(SourceError::Rule(e)),
    };
    (Some(t), answer)
}

} // verus!
