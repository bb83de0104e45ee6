//! The rules of `#[queries]`: which trait declarations are accepted, what
//! each is refused with, and the plan of the struct that replaces an
//! accepted trait.

use vstd::prelude::*;
use crate::syntax::{Attr, MetaForm, MetaItem, attr_is, meta_named, unraw, unraw_text, text_is};
use crate::error::{ErrorKind, MacroError, Target, refuse};
use crate::krate::{CrateRef, crate_path, crate_choice};
use crate::search::{first, is_first, positions, lemma_first_is, lemma_first_none, lemma_positions_step};

verus! {

/// How an argument of a query method is bound.
#[derive(Debug, PartialEq, Eq)]
pub enum Pattern {
    /// An identifier pattern: `name`, `mut name`, `ref name` or `name @ sub`.
    Ident { name: String, by_ref: bool, subpattern: bool },
    /// Any other pattern, such as a tuple.
    Other,
}

/// An input of a method signature.
#[derive(Debug, PartialEq, Eq)]
pub enum FnInput {
    /// `self`, `&self` and the like.
    Receiver,
    /// `pattern: Type`.
    Typed { has_attributes: bool, pattern: Pattern },
}

/// A method declared in a query trait.
#[derive(Debug, PartialEq, Eq)]
pub struct QueryMethod {
    pub attrs: Vec<Attr>,
    pub is_const: bool,
    pub is_async: bool,
    /// The signature says `unsafe` or `safe`.
    pub has_safety: bool,
    pub has_abi: bool,
    pub is_variadic: bool,
    pub has_generic_params: bool,
    pub has_where_clause: bool,
    /// The declaration has a default body.
    pub has_body: bool,
    /// The method's identifier as written (`r#` kept).
    pub name: String,
    pub inputs: Vec<FnInput>,
    /// No return type is written.
    pub returns_unit: bool,
}

/// An item of a query trait.
#[derive(Debug, PartialEq, Eq)]
pub enum TraitMember {
    Method(QueryMethod),
    /// An associated type, constant or macro.
    Other,
}

/// A trait given to `#[queries]`.
#[derive(Debug, PartialEq, Eq)]
pub struct QueryTrait {
    pub attrs: Vec<Attr>,
    pub is_unsafe: bool,
    /// The trait carries a modifier such as `auto`.
    pub is_auto: bool,
    pub has_generic_params: bool,
    pub has_where_clause: bool,
    pub has_supertraits: bool,
    pub members: Vec<TraitMember>,
}

/// The generated method for one query method.
#[derive(Debug, PartialEq, Eq)]
pub struct MethodPlan {
    /// The attribute whose value is the SQL.
    pub sql: usize,
    /// The attributes carried over to the generated method, in order.
    pub attributes: Vec<usize>,
    /// The argument names bound to `?1`, `?2`, ..., in declaration order.
    pub arguments: Vec<String>,
    /// The method returns `Result<()>`.
    pub returns_unit: bool,
}

/// An item that replaces an accepted trait.
#[derive(Debug, PartialEq, Eq, Clone, Copy)]
pub enum GeneratedKind {
    /// `struct Name<C> { connection: C }`, with the trait's name and visibility.
    Struct,
    /// `impl<C: ConnectionSource> Name<C>`, holding the query methods in trait order.
    QueryMethods,
    /// `impl Name<&Connection>`: `from_conn`.
    BorrowedConnection,
    /// `impl Name<&mut Connection>`: `from_conn_mut`, `begin`.
    BorrowedConnectionMut,
    /// `impl Name<Connection>`: `from_connection`, `begin`.
    OwnedConnection,
    /// `impl Name<Transaction>`: `from_tx`, `commit`, `rollback`.
    Transaction,
}

/// One generated item and the trait attributes written on it, in order.
#[derive(Debug, PartialEq, Eq)]
pub struct GeneratedItem {
    pub kind: GeneratedKind,
    pub attributes: Vec<usize>,
}

/// The struct and impls that replace an accepted trait.
#[derive(Debug, PartialEq, Eq)]
pub struct QueriesPlan {
    pub krate: CrateRef,
    /// The trait attributes (`cfg`, `cfg_attr`) repeated on every generated impl.
    pub conditions: Vec<usize>,
    /// One generated method per trait method, in order.
    pub methods: Vec<MethodPlan>,
    /// The generated items, in order.
    pub items: Vec<GeneratedItem>,
}

// ---------------------------------------------------------------- specs

/// Attributes a query trait or method may keep.
pub open spec fn attr_allowed(a: Attr) -> bool {
    attr_is(a, "doc"@) || attr_is(a, "cfg"@) || attr_is(a, "cfg_attr"@)
}

/// Attributes that condition the whole trait.
pub open spec fn attr_condition(a: Attr) -> bool {
    attr_is(a, "cfg"@) || attr_is(a, "cfg_attr"@)
}

/// The `#[query = SQL]` attribute.
pub open spec fn attr_query(a: Attr) -> bool {
    attr_is(a, "query"@)
}

/// `attr_condition` as a predicate.
pub open spec fn condition_attr() -> spec_fn(Attr) -> bool {
    |a: Attr| attr_condition(a)
}

/// The attributes a generated method keeps: all but the query.
pub open spec fn kept_attr() -> spec_fn(Attr) -> bool {
    |a: Attr| !attr_query(a)
}

/// The names of the generated methods, which query methods may not take.
pub open spec fn reserved_name(name: Seq<char>) -> bool {
    ||| name == "from_conn"@
    ||| name == "from_conn_mut"@
    ||| name == "from_connection"@
    ||| name == "from_tx"@
    ||| name == "begin"@
    ||| name == "commit"@
    ||| name == "rollback"@
}

/// Positions of attributes that are not allowed.
pub open spec fn unsupported_at(attrs: Seq<Attr>) -> spec_fn(int) -> bool {
    |j: int| !attr_allowed(attrs[j])
}

/// Some query attribute stands before position `j`.
pub open spec fn query_before(attrs: Seq<Attr>, j: int) -> bool {
    exists|k: int| 0 <= k < j && #[trigger] attr_query(attrs[k])
}

/// Positions of query attributes that repeat an earlier one or lack the `= SQL` form.
pub open spec fn query_fault_at(attrs: Seq<Attr>) -> spec_fn(int) -> bool {
    |j: int| attr_query(attrs[j]) && (query_before(attrs, j) || !(attrs[j].meta.form is NameValue))
}

/// Positions of attributes, other than the query, that are not allowed.
pub open spec fn kept_unsupported_at(attrs: Seq<Attr>) -> spec_fn(int) -> bool {
    |j: int| !attr_query(attrs[j]) && !attr_allowed(attrs[j])
}

/// Positions of inputs that cannot be bound as query arguments.
pub open spec fn input_fault_at(inputs: Seq<FnInput>) -> spec_fn(int) -> bool {
    |j: int| input_failure(inputs[j], 0, 0) is Some
}

/// The method carries a qualifier, generics or a body.
pub open spec fn has_qualifiers(m: QueryMethod) -> bool {
    m.is_const || m.is_async || m.has_safety || m.has_abi || m.is_variadic || m.has_generic_params
        || m.has_where_clause || m.has_body
}

/// What input `j` of method `i` is refused with, if anything.
pub open spec fn input_failure(x: FnInput, i: usize, j: usize) -> Option<MacroError> {
    match x {
        FnInput::Receiver => Some(refuse(ErrorKind::Receiver, Target::Input(i, j))),
        FnInput::Typed { has_attributes, pattern } => if has_attributes {
            Some(refuse(ErrorKind::ArgumentAttribute, Target::InputAttribute(i, j)))
        } else {
            match pattern {
                Pattern::Ident { name, by_ref, subpattern } => if by_ref || subpattern {
                    Some(refuse(ErrorKind::ArgumentPattern, Target::InputPattern(i, j)))
                } else {
                    None
                },
                Pattern::Other => Some(refuse(ErrorKind::ArgumentPattern, Target::InputPattern(i, j))),
            }
        },
    }
}

/// The name an accepted input binds.
pub open spec fn input_name(x: FnInput) -> Seq<char> {
    match x {
        FnInput::Typed { pattern: Pattern::Ident { name, .. }, .. } => name@,
        _ => Seq::empty(),
    }
}

/// What method `m`, the `i`-th item of its trait, is refused with, if
/// anything: its qualifiers first, then its name, its query attributes, its
/// other attributes, a missing query, and its inputs in order.
pub open spec fn method_failure(m: QueryMethod, i: usize) -> Option<MacroError> {
    let attrs = m.attrs@;
    let inputs = m.inputs@;
    if has_qualifiers(m) {
        Some(refuse(ErrorKind::InvalidMethodSignature, Target::Member(i)))
    } else if reserved_name(unraw_text(m.name@)) {
        Some(refuse(ErrorKind::ReservedMethodName, Target::MethodName(i)))
    } else if let Some(j) = first(query_fault_at(attrs), attrs.len() as int) {
        Some(refuse(
            if query_before(attrs, j) { ErrorKind::DuplicateQuery } else { ErrorKind::ExpectedQueryForm },
            Target::MethodAttribute(i, j as usize),
        ))
    } else if let Some(j) = first(kept_unsupported_at(attrs), attrs.len() as int) {
        Some(refuse(ErrorKind::UnsupportedAttribute, Target::MethodAttribute(i, j as usize)))
    } else if !query_before(attrs, attrs.len() as int) {
        Some(refuse(ErrorKind::MissingQuery, Target::MethodName(i)))
    } else if let Some(j) = first(input_fault_at(inputs), inputs.len() as int) {
        input_failure(inputs[j], i, j as usize)
    } else {
        None
    }
}

/// `p` is the plan of the accepted method `m`.
pub open spec fn method_planned(m: QueryMethod, p: MethodPlan) -> bool {
    &&& p.sql < m.attrs.len()
    &&& attr_query(m.attrs@[p.sql as int])
    &&& p.attributes@ == positions(m.attrs@, kept_attr())
    &&& p.arguments@.len() == m.inputs.len()
    &&& forall|k: int| 0 <= k < m.inputs.len() ==> #[trigger] p.arguments@[k]@ == input_name(m.inputs@[k])
    &&& p.returns_unit == m.returns_unit
}

/// The trait is unsafe, auto, generic or bounded.
pub open spec fn trait_shape_invalid(t: QueryTrait) -> bool {
    t.is_unsafe || t.is_auto || t.has_generic_params || t.has_where_clause || t.has_supertraits
}

/// What the `i`-th item of a query trait is refused with, if anything.
pub open spec fn member_failure(x: TraitMember, i: usize) -> Option<MacroError> {
    match x {
        TraitMember::Method(m) => method_failure(m, i),
        TraitMember::Other => Some(refuse(ErrorKind::ExpectedQueryMethod, Target::Member(i))),
    }
}

/// Positions of trait items that are refused.
pub open spec fn member_fault_at(members: Seq<TraitMember>) -> spec_fn(int) -> bool {
    |i: int| member_failure(members[i], i as usize) is Some
}

/// What `#[queries(args)]` on trait `t` is refused with, if anything: the
/// arguments first, then the trait's shape, its attributes, and its items
/// in order.
pub open spec fn queries_failure(args: Seq<MetaItem>, t: QueryTrait) -> Option<MacroError> {
    let attrs = t.attrs@;
    let members = t.members@;
    if let Err(e) = crate_choice(args) {
        Some(e)
    } else if trait_shape_invalid(t) {
        Some(refuse(ErrorKind::InvalidTraitShape, Target::Item))
    } else if let Some(j) = first(unsupported_at(attrs), attrs.len() as int) {
        Some(refuse(ErrorKind::UnsupportedAttribute, Target::Attribute(j as usize)))
    } else if let Some(i) = first(member_fault_at(members), members.len() as int) {
        member_failure(members[i], i as usize)
    } else {
        None
    }
}

/// The kinds of the generated items, in order.
pub open spec fn generated_kinds() -> Seq<GeneratedKind> {
    seq![
        GeneratedKind::Struct,
        GeneratedKind::QueryMethods,
        GeneratedKind::BorrowedConnection,
        GeneratedKind::BorrowedConnectionMut,
        GeneratedKind::OwnedConnection,
        GeneratedKind::Transaction,
    ]
}

/// Every position of a sequence of `n` attributes, in order.
pub open spec fn all_positions(n: nat) -> Seq<usize> {
    Seq::new(n, |j: int| j as usize)
}

/// The items replacing trait `t`: the struct, carrying all the trait's
/// attributes, then the five impls, each carrying the conditions.
pub open spec fn layout_planned(t: QueryTrait, p: QueriesPlan) -> bool {
    &&& p.items.len() == generated_kinds().len()
    &&& forall|k: int| 0 <= k < p.items.len() ==> (#[trigger] p.items@[k]).kind == generated_kinds()[k]
    &&& p.items@[0].attributes@ == all_positions(t.attrs.len() as nat)
    &&& forall|k: int| 1 <= k < p.items.len() ==> (#[trigger] p.items@[k]).attributes@ == p.conditions@
}

/// `p` is the plan of the accepted trait `t` under arguments `args`.
pub open spec fn queries_planned(args: Seq<MetaItem>, t: QueryTrait, p: QueriesPlan) -> bool {
    &&& crate_choice(args) == Ok::<CrateRef, MacroError>(p.krate)
    &&& p.conditions@ == positions(t.attrs@, condition_attr())
    &&& p.methods.len() == t.members.len()
    &&& layout_planned(t, p)
    &&& forall|i: int|
        0 <= i < t.members.len() ==> (#[trigger] t.members@[i] matches TraitMember::Method(m) && method_planned(
            m,
            p.methods@[i],
        ))
}

// ---------------------------------------------------------------- code

/// Whether the attribute may be kept on a query trait or method.
fn allowed(a: &Attr) -> (b: bool)
    ensures
        b == attr_allowed(*a),
{
    meta_named(&a.meta, "doc") || meta_named(&a.meta, "cfg") || meta_named(&a.meta, "cfg_attr")
}

/// Checks that every attribute is `doc`, `cfg` or `cfg_attr`; otherwise
/// gives the position of the first that is not.
pub fn check_attributes(attributes: &Vec<Attr>) -> (r: Result<(), usize>)
    ensures
        match r {
            Ok(()) => forall|j: int| 0 <= j < attributes.len() ==> attr_allowed(#[trigger] attributes@[j]),
            Err(j) => is_first(unsupported_at(attributes@), attributes.len() as int, j as int),
        },
{
    let mut j: usize = 0;
    while j < attributes.len()
        invariant
            j <= attributes.len(),
            forall|k: int| 0 <= k < j ==> attr_allowed(#[trigger] attributes@[k]),
        decreases attributes.len() - j,
    {
        if !allowed(&attributes[j]) {
            assert forall|m: int| 0 <= m < j implies !#[trigger] unsupported_at(attributes@)(m) by {
                assert(attr_allowed(attributes@[m]));
            }
            return Err(j);
        }
        j = j + 1;
    }
    Ok(())
}

/// Whether `name`, once its raw marker is dropped, names a generated method.
fn is_reserved(name: &String) -> (b: bool)
    ensures
        b == reserved_name(unraw_text(name@)),
{
    let plain = unraw(name);
    text_is(&plain, "from_conn") || text_is(&plain, "from_conn_mut") || text_is(&plain, "from_connection")
        || text_is(&plain, "from_tx") || text_is(&plain, "begin") || text_is(&plain, "commit")
        || text_is(&plain, "rollback")
}

/// Checks one method of a query trait, the `i`-th item, and plans the
/// generated method: its SQL attribute, the attributes it keeps, and the
/// names its arguments bind in declaration order.
pub fn expand_method(method: &QueryMethod, i: usize) -> (r: Result<MethodPlan, MacroError>)
    ensures
        match r {
            Ok(p) => method_failure(*method, i) is None && method_planned(*method, p),
            Err(e) => method_failure(*method, i) == Some(e),
        },
{
    if method.is_const || method.is_async || method.has_safety || method.has_abi || method.is_variadic
        || method.has_generic_params || method.has_where_clause || method.has_body
    {
        return Err(MacroError { kind: ErrorKind::InvalidMethodSignature, target: Target::Member(i) });
    }
    if is_reserved(&method.name) {
        return Err(MacroError { kind: ErrorKind::ReservedMethodName, target: Target::MethodName(i) });
    }
    let attrs = &method.attrs;
    let ghost sa = attrs@;
    let mut sql: Option<usize> = None;
    let mut attributes: Vec<usize> = Vec::new();
    let mut j: usize = 0;
    while j < attrs.len()
        invariant
            sa == attrs@,
            sa == method.attrs@,
            !has_qualifiers(*method),
            !reserved_name(unraw_text(method.name@)),
            j <= attrs.len(),
            forall|m: int| 0 <= m < j ==> !#[trigger] query_fault_at(sa)(m),
            sql is None <==> !query_before(sa, j as int),
            sql matches Some(s) ==> s < j && attr_query(sa[s as int]),
            attributes@ == positions(sa.take(j as int), kept_attr()),
        decreases attrs.len() - j,
    {
        let a = &attrs[j];
        proof {
            lemma_positions_step(sa, kept_attr(), j as int);
        }
        if meta_named(&a.meta, "query") {
            if sql.is_some() {
                proof {
                    assert(query_fault_at(sa)(j as int));
                    lemma_first_is(query_fault_at(sa), sa.len() as int, j as int);
                }
                return Err(MacroError { kind: ErrorKind::DuplicateQuery, target: Target::MethodAttribute(i, j) });
            }
            match &a.meta.form {
                MetaForm::NameValue(_) => {},
                _ => {
                    proof {
                        assert(query_fault_at(sa)(j as int));
                        lemma_first_is(query_fault_at(sa), sa.len() as int, j as int);
                    }
                    return Err(
                        MacroError { kind: ErrorKind::ExpectedQueryForm, target: Target::MethodAttribute(i, j) },
                    );
                },
            }
            sql = Some(j);
            assert(query_before(sa, j + 1)) by {
                assert(attr_query(sa[j as int]));
            }
        } else {
            attributes.push(j);
            assert(query_before(sa, j as int) <==> query_before(sa, j + 1)) by {
                if query_before(sa, j + 1) {
                    let k = choose|k: int| 0 <= k < j + 1 && #[trigger] attr_query(sa[k]);
                    assert(k != j);
                }
            }
        }
        j = j + 1;
    }
    proof {
        assert(sa.take(sa.len() as int) =~= sa);
        lemma_first_none(query_fault_at(sa), sa.len() as int);
    }
    let mut j: usize = 0;
    while j < attrs.len()
        invariant
            sa == attrs@,
            sa == method.attrs@,
            !has_qualifiers(*method),
            !reserved_name(unraw_text(method.name@)),
            first(query_fault_at(sa), sa.len() as int) is None,
            j <= attrs.len(),
            forall|m: int| 0 <= m < j ==> !#[trigger] kept_unsupported_at(sa)(m),
        decreases attrs.len() - j,
    {
        let a = &attrs[j];
        if !meta_named(&a.meta, "query") && !allowed(a) {
            proof {
                assert(kept_unsupported_at(sa)(j as int));
                lemma_first_is(kept_unsupported_at(sa), sa.len() as int, j as int);
            }
            return Err(MacroError { kind: ErrorKind::UnsupportedAttribute, target: Target::MethodAttribute(i, j) });
        }
        j = j + 1;
    }
    proof {
        lemma_first_none(kept_unsupported_at(sa), sa.len() as int);
    }
    let sql = match sql {
        Some(s) => s,
        None => {
            return Err(MacroError { kind: ErrorKind::MissingQuery, target: Target::MethodName(i) });
        },
    };
    let inputs = &method.inputs;
    let ghost si = inputs@;
    let mut arguments: Vec<String> = Vec::new();
    let mut j: usize = 0;
    while j < inputs.len()
        invariant
            si == inputs@,
            si == method.inputs@,
            !has_qualifiers(*method),
            !reserved_name(unraw_text(method.name@)),
            first(query_fault_at(method.attrs@), method.attrs@.len() as int) is None,
            first(kept_unsupported_at(method.attrs@), method.attrs@.len() as int) is None,
            query_before(method.attrs@, method.attrs@.len() as int),
            j <= inputs.len(),
            forall|m: int| 0 <= m < j ==> !#[trigger] input_fault_at(si)(m),
            arguments@.len() == j,
            forall|k: int| 0 <= k < j ==> #[trigger] arguments@[k]@ == input_name(si[k]),
        decreases inputs.len() - j,
    {
        let failure = match &inputs[j] {
            FnInput::Receiver => Some(MacroError { kind: ErrorKind::Receiver, target: Target::Input(i, j) }),
            FnInput::Typed { has_attributes, pattern } => {
                if *has_attributes {
                    Some(MacroError { kind: ErrorKind::ArgumentAttribute, target: Target::InputAttribute(i, j) })
                } else {
                    match pattern {
                        Pattern::Ident { name, by_ref, subpattern } => {
                            if *by_ref || *subpattern {
                                Some(
                                    MacroError {
                                        kind: ErrorKind::ArgumentPattern,
                                        target: Target::InputPattern(i, j),
                                    },
                                )
                            } else {
                                arguments.push(name.clone());
                                None
                            }
                        },
                        Pattern::Other => Some(
                            MacroError { kind: ErrorKind::ArgumentPattern, target: Target::InputPattern(i, j) },
                        ),
                    }
                }
            },
        };
        if let Some(e) = failure {
            proof {
                assert(input_fault_at(si)(j as int));
                lemma_first_is(input_fault_at(si), si.len() as int, j as int);
            }
            return Err(e);
        }
        j = j + 1;
    }
    proof {
        lemma_first_none(input_fault_at(si), si.len() as int);
    }
    Ok(MethodPlan { sql, attributes, arguments, returns_unit: method.returns_unit })
}

/// Checks a trait given to `#[queries(attributes)]` and plans the struct,
/// its query methods and the impls that replace it.
pub fn expand_queries(attributes: &Vec<MetaItem>, item: &QueryTrait) -> (r: Result<QueriesPlan, MacroError>)
    ensures
        match r {
            Ok(p) => queries_failure(attributes@, *item) is None && queries_planned(attributes@, *item, p),
            Err(e) => queries_failure(attributes@, *item) == Some(e),
        },
{
    let krate = match crate_path(attributes) {
        Ok(k) => k,
        Err(e) => {
            return Err(e);
        },
    };
    if item.is_unsafe || item.is_auto || item.has_generic_params || item.has_where_clause || item.has_supertraits {
        return Err(MacroError { kind: ErrorKind::InvalidTraitShape, target: Target::Item });
    }
    let attrs = &item.attrs;
    match check_attributes(attrs) {
        Ok(()) => {},
        Err(j) => {
            proof {
                lemma_first_is(unsupported_at(attrs@), attrs@.len() as int, j as int);
            }
            return Err(MacroError { kind: ErrorKind::UnsupportedAttribute, target: Target::Attribute(j) });
        },
    }
    proof {
        lemma_first_none(unsupported_at(attrs@), attrs@.len() as int);
    }
    let members = &item.members;
    let ghost sm = members@;
    let mut methods: Vec<MethodPlan> = Vec::new();
    let mut i: usize = 0;
    while i < members.len()
        invariant
            sm == members@,
            sm == item.members@,
            crate_choice(attributes@) == Ok::<CrateRef, MacroError>(krate),
            !trait_shape_invalid(*item),
            first(unsupported_at(item.attrs@), item.attrs@.len() as int) is None,
            i <= members.len(),
            forall|m: int| 0 <= m < i ==> !#[trigger] member_fault_at(sm)(m),
            methods@.len() == i,
            forall|k: int|
                0 <= k < i ==> (#[trigger] sm[k] matches TraitMember::Method(m) && method_planned(
                    m,
                    methods@[k],
                )),
        decreases members.len() - i,
    {
        match &members[i] {
            TraitMember::Method(method) => {
                match expand_method(method, i) {
                    Ok(plan) => {
                        methods.push(plan);
                    },
                    Err(e) => {
                        proof {
                            assert(member_fault_at(sm)(i as int));
                            lemma_first_is(member_fault_at(sm), sm.len() as int, i as int);
                        }
                        return Err(e);
                    },
                }
            },
            TraitMember::Other => {
                proof {
                    assert(member_fault_at(sm)(i as int));
                    lemma_first_is(member_fault_at(sm), sm.len() as int, i as int);
                }
                return Err(MacroError { kind: ErrorKind::ExpectedQueryMethod, target: Target::Member(i) });
            },
        }
        i = i + 1;
    }
    proof {
        lemma_first_none(member_fault_at(sm), sm.len() as int);
    }
    let ghost sa = attrs@;
    let mut conditions: Vec<usize> = Vec::new();
    let mut j: usize = 0;
    while j < attrs.len()
        invariant
            sa == attrs@,
            j <= attrs.len(),
            conditions@ == positions(sa.take(j as int), condition_attr()),
        decreases attrs.len() - j,
    {
        proof {
            lemma_positions_step(sa, condition_attr(), j as int);
        }
        let a = &attrs[j];
        if meta_named(&a.meta, "cfg") || meta_named(&a.meta, "cfg_attr") {
            conditions.push(j);
        }
        j = j + 1;
    }
    proof {
        assert(sa.take(sa.len() as int) =~= sa);
    }
    let items = layout(attrs.len(), &conditions);
    Ok(QueriesPlan { krate, conditions, methods, items })
}

/// A copy of a list of positions.
fn copy_positions(v: &Vec<usize>) -> (r: Vec<usize>)
    ensures
        r@ == v@,
{
    let mut r: Vec<usize> = Vec::new();
    let mut j: usize = 0;
    while j < v.len()
        invariant
            j <= v.len(),
            r@ == v@.take(j as int),
        decreases v.len() - j,
    {
        r.push(v[j]);
        assert(v@.take(j + 1) =~= v@.take(j as int).push(v@[j as int]));
        j = j + 1;
    }
    assert(v@.take(v.len() as int) =~= v@);
    r
}

/// The items that replace a trait with `n` attributes, of which
/// `conditions` are repeated on every impl.
fn layout(n: usize, conditions: &Vec<usize>) -> (items: Vec<GeneratedItem>)
    ensures
        items.len() == generated_kinds().len(),
        forall|k: int| 0 <= k < items.len() ==> (#[trigger] items@[k]).kind == generated_kinds()[k],
        items@[0].attributes@ == all_positions(n as nat),
        forall|k: int| 1 <= k < items.len() ==> (#[trigger] items@[k]).attributes@ == conditions@,
{
    let mut all: Vec<usize> = Vec::new();
    let mut j: usize = 0;
    while j < n
        invariant
            j <= n,
            all@ == all_positions(j as nat),
        decreases n - j,
    {
        all.push(j);
        assert(all@ =~= all_positions((j + 1) as nat));
        j = j + 1;
    }
    let mut items: Vec<GeneratedItem> = Vec::new();
    items.push(GeneratedItem { kind: GeneratedKind::Struct, attributes: all });
    items.push(GeneratedItem { kind: GeneratedKind::QueryMethods, attributes: copy_positions(conditions) });
    items.push(GeneratedItem { kind: GeneratedKind::BorrowedConnection, attributes: copy_positions(conditions) });
    items.push(GeneratedItem { kind: GeneratedKind::BorrowedConnectionMut, attributes: copy_positions(conditions) });
    items.push(GeneratedItem { kind: GeneratedKind::OwnedConnection, attributes: copy_positions(conditions) });
    items.push(GeneratedItem { kind: GeneratedKind::Transaction, attributes: copy_positions(conditions) });
    items
}

} // verus!
