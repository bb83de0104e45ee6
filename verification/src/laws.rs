//! Properties that hold of every declaration the macros accept or refuse.

use vstd::prelude::*;
use crate::syntax::{Attr, MetaItem, MetaForm, MetaValue, attr_is, unraw_text};
use crate::error::{ErrorKind, MacroError, Target};
use crate::krate::{CrateRef, crate_choice, gives_crate_path};
use crate::search::{first, is_first, positions, lemma_first_none};
use crate::queries::{
    FnInput, Pattern, QueryMethod, QueryTrait, MethodPlan, QueriesPlan, TraitMember, GeneratedKind, trait_shape_invalid, attr_allowed, attr_condition, attr_query,
    condition_attr, kept_attr, generated_kinds, input_name, method_failure, method_planned, query_before, query_fault_at,
    kept_unsupported_at, queries_failure, queries_planned, reserved_name, unsupported_at, input_fault_at,
    member_fault_at,
};
use crate::from_row::{
    RowField, Column, RowData, RowInput, RowPlan, RowCrate, column_planned, field_failure, field_attr_fault_at,
    field_attr_failure, named_before, row_failure, row_planned, type_attr_fault_at, row_fields,
    field_fault_at,
};

verus! {

/// The positions of `s` that satisfy `p` are exactly those positions, each
/// once and in increasing order.
pub proof fn lemma_positions(s: Seq<Attr>, p: spec_fn(Attr) -> bool)
    requires
        s.len() <= usize::MAX,
    ensures
        forall|k: int|
            0 <= k < positions(s, p).len() ==> #[trigger] positions(s, p)[k] < s.len() && p(
                s[positions(s, p)[k] as int],
            ),
        forall|j: int| 0 <= j < s.len() && p(s[j]) ==> #[trigger] positions(s, p).contains(j as usize),
        forall|a: int, b: int|
            0 <= a < b < positions(s, p).len() ==> #[trigger] positions(s, p)[a] < #[trigger] positions(
                s,
                p,
            )[b],
    decreases s.len(),
{
    if s.len() > 0 {
        let t = s.drop_last();
        lemma_positions(t, p);
        let r = positions(t, p);
        let n = (s.len() - 1) as usize;
        assert(n as int == s.len() - 1);
        if p(s.last()) {
            assert(positions(s, p) == r.push(n));
            assert forall|a: int, b: int| 0 <= a < b < positions(s, p).len() implies #[trigger] positions(s, p)[a]
                < #[trigger] positions(s, p)[b] by {
                if b == r.len() {
                    assert(r[a] < t.len());
                }
            }
        } else {
            assert(positions(s, p) == r);
        }
        assert forall|k: int| 0 <= k < positions(s, p).len() implies #[trigger] positions(s, p)[k] < s.len() && p(
            s[positions(s, p)[k] as int],
        ) by {
            if k < r.len() {
                assert(t[r[k] as int] == s[r[k] as int]);
            }
        }
        assert forall|j: int| 0 <= j < s.len() && p(s[j]) implies #[trigger] positions(s, p).contains(
            j as usize,
        ) by {
            if j < s.len() - 1 {
                assert(t[j] == s[j]);
                assert(r.contains(j as usize));
                let w = choose|w: int| 0 <= w < r.len() && r[w] == j as usize;
                if p(s.last()) {
                    assert(positions(s, p)[w] == j as usize);
                }
            } else {
                assert(positions(s, p)[r.len() as int] == j as usize);
            }
        }
    }
}

/// Every method of an accepted trait has exactly one `query` attribute, of
/// the `name = value` form, and it is the one whose value becomes the SQL.
pub proof fn law_single_query_attribute(m: QueryMethod, i: usize, p: MethodPlan)
    requires
        method_failure(m, i) is None,
        method_planned(m, p),
    ensures
        forall|j: int| 0 <= j < m.attrs.len() ==> (attr_query(#[trigger] m.attrs@[j]) <==> j == p.sql),
        m.attrs@[p.sql as int].meta.form is NameValue,
{
    let attrs = m.attrs@;
    lemma_first_none(query_fault_at(attrs), attrs.len() as int);
    let s = p.sql as int;
    assert(!query_fault_at(attrs)(s));
    assert forall|j: int| 0 <= j < m.attrs.len() implies (attr_query(#[trigger] m.attrs@[j]) <==> j == p.sql) by {
        if attr_query(attrs[j]) && j != s {
            assert(!query_fault_at(attrs)(j));
            if j < s {
                assert(query_before(attrs, s));
            } else {
                assert(query_before(attrs, j));
            }
        }
    }
}

/// Only `doc`, `cfg` and `cfg_attr` attributes are carried over to a
/// generated method, and never the `query` attribute.
pub proof fn law_kept_method_attributes(m: QueryMethod, i: usize, p: MethodPlan)
    requires
        method_failure(m, i) is None,
        method_planned(m, p),
    ensures
        forall|k: int|
            0 <= k < p.attributes.len() ==> #[trigger] p.attributes@[k] < m.attrs.len() && attr_allowed(
                m.attrs@[p.attributes@[k] as int],
            ) && !attr_query(m.attrs@[p.attributes@[k] as int]),
{
    let attrs = m.attrs@;
    lemma_first_none(kept_unsupported_at(attrs), attrs.len() as int);
    assert(attrs.len() == m.attrs.len());
    lemma_positions(attrs, kept_attr());
    assert forall|k: int| 0 <= k < p.attributes.len() implies #[trigger] p.attributes@[k] < m.attrs.len()
        && attr_allowed(m.attrs@[p.attributes@[k] as int]) && !attr_query(m.attrs@[p.attributes@[k] as int]) by {
        let j = p.attributes@[k] as int;
        assert(positions(attrs, kept_attr())[k] == p.attributes@[k]);
        assert(!kept_unsupported_at(attrs)(j));
    }
}

/// A method whose name, raw marker dropped, is one of the generated
/// methods' names is refused.
pub proof fn law_reserved_names_refused(m: QueryMethod, i: usize)
    requires
        reserved_name(unraw_text(m.name@)),
    ensures
        method_failure(m, i) is Some,
{
}

/// An accepted trait has only `doc`, `cfg` and `cfg_attr` attributes and
/// only methods; its `cfg` and `cfg_attr` attributes, and no others, are the
/// conditions repeated on every generated item, in their order.
pub proof fn law_trait_conditions(args: Seq<MetaItem>, t: QueryTrait, p: QueriesPlan)
    requires
        queries_failure(args, t) is None,
        queries_planned(args, t, p),
    ensures
        forall|j: int| 0 <= j < t.attrs.len() ==> attr_allowed(#[trigger] t.attrs@[j]),
        forall|i: int| 0 <= i < t.members.len() ==> #[trigger] t.members@[i] is Method,
        forall|k: int|
            0 <= k < p.conditions.len() ==> #[trigger] p.conditions@[k] < t.attrs.len() && attr_condition(
                t.attrs@[p.conditions@[k] as int],
            ),
        forall|j: int| 0 <= j < t.attrs.len() && attr_condition(#[trigger] t.attrs@[j]) ==> p.conditions@.contains(
            j as usize,
        ),
        forall|a: int, b: int|
            0 <= a < b < p.conditions.len() ==> #[trigger] p.conditions@[a] < #[trigger] p.conditions@[b],
{
    let attrs = t.attrs@;
    lemma_first_none(unsupported_at(attrs), attrs.len() as int);
    assert forall|j: int| 0 <= j < t.attrs.len() implies attr_allowed(#[trigger] t.attrs@[j]) by {
        assert(!unsupported_at(attrs)(j));
    }
    assert(attrs.len() == t.attrs.len());
    lemma_positions(attrs, condition_attr());
    assert forall|k: int| 0 <= k < p.conditions.len() implies #[trigger] p.conditions@[k] < t.attrs.len()
        && attr_condition(t.attrs@[p.conditions@[k] as int]) by {
        assert(positions(attrs, condition_attr())[k] == p.conditions@[k]);
    }
    assert forall|j: int| 0 <= j < t.attrs.len() && attr_condition(#[trigger] t.attrs@[j]) implies p.conditions@.contains(
        j as usize,
    ) by {
        assert(condition_attr()(attrs[j]));
    }
}

/// Without arguments the default crate is used; a single `crate = path`
/// selects that path; two or more arguments are always refused.
pub proof fn law_crate_arguments(args: Seq<MetaItem>)
    ensures
        args.len() == 0 ==> crate_choice(args) == Ok::<CrateRef, MacroError>(CrateRef::Default),
        args.len() == 1 && gives_crate_path(args[0]) ==> crate_choice(args) == Ok::<CrateRef, MacroError>(
            CrateRef::Argument(0),
        ),
        args.len() >= 2 ==> crate_choice(args) is Err,
        crate_choice(args) matches Ok(CrateRef::Argument(k)) ==> k == 0 && k < args.len() && gives_crate_path(args[0]),
{
}

/// On an accepted field, a `#[column = "name"]` attribute is the only one of
/// its kind and always decides the column; without one, a named field is
/// read from the column named like it, raw marker dropped, and a tuple
/// field from its position.
pub proof fn law_column_choice(field: RowField, f: usize, c: Column)
    requires
        field_failure(field, f) is None,
        column_planned(field, f, c),
    ensures
        forall|j: int|
            0 <= j < field.attrs.len() && attr_is(#[trigger] field.attrs@[j], "column"@) ==> c == Column::Attribute(
                j as usize,
            ),
        c matches Column::Attribute(j) ==> (field.attrs@[j as int].meta.form matches MetaForm::NameValue(
            MetaValue::Str(_),
        )),
        !named_before(field.attrs@, "column"@, field.attrs.len() as int) ==> match field.ident {
            Some(id) => c matches Column::Name(name) && name@ == unraw_text(id@),
            None => c == Column::Position(f),
        },
{
    let attrs = field.attrs@;
    lemma_first_none(field_attr_fault_at(attrs), attrs.len() as int);
    assert forall|j: int|
        0 <= j < field.attrs.len() && attr_is(#[trigger] field.attrs@[j], "column"@) implies c == Column::Attribute(
        j as usize,
    ) by {
        assert(named_before(attrs, "column"@, attrs.len() as int));
        if let Column::Attribute(k) = c {
            assert(!field_attr_fault_at(attrs)(j));
            assert(!field_attr_fault_at(attrs)(k as int));
            if (k as int) < j {
                assert(named_before(attrs, "column"@, j));
            } else if j < k {
                assert(named_before(attrs, "column"@, k as int));
            }
        }
    }
    if let Column::Attribute(j) = c {
        assert(!field_attr_fault_at(attrs)(j as int));
        if named_before(attrs, "column"@, j as int) {
            assert(field_attr_failure(attrs, 0, j as int) is Some);
        }
    }
}

/// An accepted type has at most one `from_row` attribute, which then
/// decides the crate; without one the default crate is used.
pub proof fn law_single_from_row(t: RowInput, p: RowPlan)
    requires
        row_failure(t) is None,
        row_planned(t, p),
    ensures
        forall|j: int| 0 <= j < t.attrs.len() && attr_is(#[trigger] t.attrs@[j], "from_row"@) ==> (p.krate
            matches RowCrate::Attribute(k, _) && k == j),
        !(t.data is Enum || t.data is Union || t.data is Unit),
{
    let attrs = t.attrs@;
    lemma_first_none(type_attr_fault_at(attrs), attrs.len() as int);
    assert forall|j: int| 0 <= j < t.attrs.len() && attr_is(#[trigger] t.attrs@[j], "from_row"@) implies (p.krate
        matches RowCrate::Attribute(k, _) && k == j) by {
        assert(named_before(attrs, "from_row"@, attrs.len() as int));
        if let RowCrate::Attribute(k, _) = p.krate {
            assert(!type_attr_fault_at(attrs)(j));
            assert(!type_attr_fault_at(attrs)(k as int));
            if (k as int) < j {
                assert(named_before(attrs, "from_row"@, j));
            } else if j < k {
                assert(named_before(attrs, "from_row"@, k as int));
            }
        }
    }
}

/// `target` names a piece of method `m`, the `i`-th item of its trait.
pub open spec fn points_into_method(m: QueryMethod, i: usize, target: Target) -> bool {
    match target {
        Target::Member(k) => k == i,
        Target::MethodName(k) => k == i,
        Target::MethodAttribute(k, j) => k == i && j < m.attrs.len(),
        Target::Input(k, j) => k == i && j < m.inputs.len(),
        Target::InputAttribute(k, j) => k == i && j < m.inputs.len() && m.inputs@[j as int] matches FnInput::Typed {
            has_attributes: true,
            ..
        },
        Target::InputPattern(k, j) => k == i && j < m.inputs.len() && m.inputs@[j as int] is Typed,
        _ => false,
    }
}

/// `target` names a piece of `#[queries(args)]` on trait `t`.
pub open spec fn points_into_trait(args: Seq<MetaItem>, t: QueryTrait, target: Target) -> bool {
    match target {
        Target::Argument(k) => k < args.len(),
        Target::Item => true,
        Target::Attribute(j) => j < t.attrs.len(),
        Target::Member(i) => i < t.members.len(),
        _ => exists|i: int|
            0 <= i < t.members.len() && (#[trigger] t.members@[i] matches TraitMember::Method(m)
                && points_into_method(m, i as usize, target)),
    }
}

/// Every refusal of a method points at a piece of that method that exists.
pub proof fn law_method_errors_point_into_method(m: QueryMethod, i: usize)
    ensures
        method_failure(m, i) matches Some(e) ==> points_into_method(m, i, e.target),
{
    let attrs = m.attrs@;
    let inputs = m.inputs@;
    assert(attrs.len() == m.attrs.len() && inputs.len() == m.inputs.len());
    if let Some(j) = first(query_fault_at(attrs), attrs.len() as int) {
        assert(is_first(query_fault_at(attrs), attrs.len() as int, j));
    }
    if let Some(j) = first(kept_unsupported_at(attrs), attrs.len() as int) {
        assert(is_first(kept_unsupported_at(attrs), attrs.len() as int, j));
    }
    if let Some(j) = first(input_fault_at(inputs), inputs.len() as int) {
        assert(is_first(input_fault_at(inputs), inputs.len() as int, j));
    }
}

/// Every refusal of `#[queries]` points at a piece of the input that
/// exists, so that it can be reported there.
pub proof fn law_queries_errors_point_into_input(args: Seq<MetaItem>, t: QueryTrait)
    ensures
        queries_failure(args, t) matches Some(e) ==> points_into_trait(args, t, e.target),
{
    let attrs = t.attrs@;
    let members = t.members@;
    if let Some(j) = first(unsupported_at(attrs), attrs.len() as int) {
        assert(is_first(unsupported_at(attrs), attrs.len() as int, j));
    }
    if let Some(i) = first(member_fault_at(members), members.len() as int) {
        assert(is_first(member_fault_at(members), members.len() as int, i));
        if let TraitMember::Method(m) = members[i] {
            law_method_errors_point_into_method(m, i as usize);
            if let Some(e) = method_failure(m, i as usize) {
                match e.target {
                    Target::Member(_) => {},
                    _ => {
                        assert(members[i] matches TraitMember::Method(mm) && points_into_method(mm, i as usize, e.target));
                    },
                }
            }
        }
    }
}

/// `target` names a piece of a type given to `#[derive(FromRow)]`.
pub open spec fn points_into_row(t: RowInput, target: Target) -> bool {
    let fields = row_fields(t.data);
    match target {
        Target::Item => true,
        Target::Attribute(j) => j < t.attrs.len(),
        Target::AttributeArgument(j, k) => j < t.attrs.len() && (t.attrs@[j as int].args matches Ok(args) && k
            < args.len()),
        Target::FieldAttribute(f, j) => f < fields.len() && j < fields[f as int].attrs.len(),
        Target::FieldAttributeMeta(f, j) => f < fields.len() && j < fields[f as int].attrs.len()
            && fields[f as int].attrs@[j as int].meta.form is NameValue,
        Target::FieldAttributeValue(f, j) => f < fields.len() && j < fields[f as int].attrs.len()
            && fields[f as int].attrs@[j as int].meta.form is NameValue,
        _ => false,
    }
}

/// Every refusal of `#[derive(FromRow)]` points at a piece of the input
/// that exists, so that it can be reported there.
pub proof fn law_row_errors_point_into_input(t: RowInput)
    ensures
        row_failure(t) matches Some(e) ==> points_into_row(t, e.target),
{
    let attrs = t.attrs@;
    let fields = row_fields(t.data);
    assert(attrs.len() == t.attrs.len());
    assert(fields.len() <= usize::MAX) by {
        match t.data {
            RowData::Named(v) => assert(v@.len() == v.len()),
            RowData::Unnamed(v) => assert(v@.len() == v.len()),
            _ => {},
        }
    }
    if let Some(j) = first(type_attr_fault_at(attrs), attrs.len() as int) {
        assert(is_first(type_attr_fault_at(attrs), attrs.len() as int, j));
        if let Ok(args) = attrs[j].args {
            assert(args@.len() == args.len());
        }
    } else if let Some(f) = first(field_fault_at(fields), fields.len() as int) {
        assert(is_first(field_fault_at(fields), fields.len() as int, f));
        let fattrs = fields[f].attrs@;
        assert(fattrs.len() == fields[f].attrs.len());
        if let Some(j) = first(field_attr_fault_at(fattrs), fattrs.len() as int) {
            assert(is_first(field_attr_fault_at(fattrs), fattrs.len() as int, j));
        }
    }
}

/// `#[queries(args)]` accepts trait `t` exactly when the arguments choose a
/// crate, the trait is neither unsafe, auto, generic nor bounded, its
/// attributes are all `doc`, `cfg` or `cfg_attr`, and every item is a method
/// that is accepted.
pub proof fn law_queries_acceptance(args: Seq<MetaItem>, t: QueryTrait)
    ensures
        queries_failure(args, t) is None <==> {
            &&& crate_choice(args) is Ok
            &&& !trait_shape_invalid(t)
            &&& forall|j: int| 0 <= j < t.attrs.len() ==> attr_allowed(#[trigger] t.attrs@[j])
            &&& forall|i: int|
                0 <= i < t.members.len() ==> (#[trigger] t.members@[i] matches TraitMember::Method(m)
                    && method_failure(m, i as usize) is None)
        },
{
    let attrs = t.attrs@;
    let members = t.members@;
    lemma_first_none(unsupported_at(attrs), attrs.len() as int);
    lemma_first_none(member_fault_at(members), members.len() as int);
    if let Some(i) = first(member_fault_at(members), members.len() as int) {
        assert(is_first(member_fault_at(members), members.len() as int, i));
    }
    if forall|j: int| 0 <= j < attrs.len() ==> !#[trigger] unsupported_at(attrs)(j) {
        assert forall|j: int| 0 <= j < t.attrs.len() implies attr_allowed(#[trigger] t.attrs@[j]) by {
            assert(!unsupported_at(attrs)(j));
        }
    }
    if forall|j: int| 0 <= j < t.attrs.len() ==> attr_allowed(#[trigger] t.attrs@[j]) {
        assert forall|j: int| 0 <= j < attrs.len() implies !#[trigger] unsupported_at(attrs)(j) by {
            assert(attr_allowed(t.attrs@[j]));
        }
    }
    if forall|i: int| 0 <= i < members.len() ==> !#[trigger] member_fault_at(members)(i) {
        assert forall|i: int| 0 <= i < t.members.len() implies (#[trigger] t.members@[i] matches TraitMember::Method(
            m,
        ) && method_failure(m, i as usize) is None) by {
            assert(!member_fault_at(members)(i));
        }
    }
    if forall|i: int|
        0 <= i < t.members.len() ==> (#[trigger] t.members@[i] matches TraitMember::Method(m) && method_failure(
            m,
            i as usize,
        ) is None) {
        assert forall|i: int| 0 <= i < members.len() implies !#[trigger] member_fault_at(members)(i) by {
            assert(t.members@[i] matches TraitMember::Method(m) && method_failure(m, i as usize) is None);
        }
    }
}

/// An accepted trait is replaced by one struct carrying all its attributes,
/// then five impls, each carrying exactly its `cfg` and `cfg_attr`
/// attributes, in order; so every generated item carries every condition.
pub proof fn law_generated_items(args: Seq<MetaItem>, t: QueryTrait, p: QueriesPlan)
    requires
        queries_failure(args, t) is None,
        queries_planned(args, t, p),
    ensures
        p.items.len() == 6,
        p.items@[0].kind == GeneratedKind::Struct,
        p.items@[1].kind == GeneratedKind::QueryMethods,
        forall|k: int, c: int|
            0 <= k < p.items.len() && 0 <= c < p.conditions.len() ==> #[trigger] p.items@[k].attributes@.contains(
                #[trigger] p.conditions@[c],
            ),
        forall|k: int, a: int|
            1 <= k < p.items.len() && 0 <= a < p.items@[k].attributes.len() ==> attr_condition(
                t.attrs@[#[trigger] p.items@[k].attributes@[a] as int],
            ),
{
    law_trait_conditions(args, t, p);
    assert forall|k: int, c: int|
        0 <= k < p.items.len() && 0 <= c < p.conditions.len() implies #[trigger] p.items@[k].attributes@.contains(
        #[trigger] p.conditions@[c],
    ) by {
        if k == 0 {
            let j = p.conditions@[c];
            assert(p.items@[0].attributes@[j as int] == j);
        } else {
            assert(p.items@[k].attributes@[c] == p.conditions@[c]);
        }
    }
    assert forall|k: int, a: int|
        1 <= k < p.items.len() && 0 <= a < p.items@[k].attributes.len() implies attr_condition(
        t.attrs@[#[trigger] p.items@[k].attributes@[a] as int],
    ) by {
        assert(p.items@[k].attributes@[a] == p.conditions@[a]);
    }
}

/// The attribute's path is `doc`, `cfg` or `cfg_attr`, whatever its form or value.
pub open spec fn names_doc_or_condition(a: Attr) -> bool {
    ||| attr_is(a, "doc"@)
    ||| attr_is(a, "cfg"@)
    ||| attr_is(a, "cfg_attr"@)
}

/// An accepted trait is replaced by exactly these six items, in this
/// order, each kind once: the struct, the impl of the query methods, and the
/// impls over `&Connection`, `&mut Connection`, `Connection` and `Transaction`.
pub proof fn law_generated_kinds(args: Seq<MetaItem>, t: QueryTrait, p: QueriesPlan)
    requires
        queries_failure(args, t) is None,
        queries_planned(args, t, p),
    ensures
        p.items.len() == 6,
        p.items@[0].kind == GeneratedKind::Struct,
        p.items@[1].kind == GeneratedKind::QueryMethods,
        p.items@[2].kind == GeneratedKind::BorrowedConnection,
        p.items@[3].kind == GeneratedKind::BorrowedConnectionMut,
        p.items@[4].kind == GeneratedKind::OwnedConnection,
        p.items@[5].kind == GeneratedKind::Transaction,
        forall|a: int, b: int|
            0 <= a < b < p.items.len() ==> #[trigger] p.items@[a].kind != #[trigger] p.items@[b].kind,
{
    assert(p.items@[0].kind == generated_kinds()[0]);
    assert(p.items@[1].kind == generated_kinds()[1]);
    assert(p.items@[2].kind == generated_kinds()[2]);
    assert(p.items@[3].kind == generated_kinds()[3]);
    assert(p.items@[4].kind == generated_kinds()[4]);
    assert(p.items@[5].kind == generated_kinds()[5]);
}

/// A method is refused for its name only when that name, raw marker
/// dropped, is `from_conn`, `from_conn_mut`, `from_connection`, `from_tx`,
/// `begin`, `commit` or `rollback`; and renaming an accepted method to any
/// other name keeps it accepted.
pub proof fn law_reserved_names_only(m: QueryMethod, i: usize, other: String)
    ensures
        (method_failure(m, i) matches Some(e) && e.kind == ErrorKind::ReservedMethodName) ==> {
            let n = unraw_text(m.name@);
            ||| n == "from_conn"@
            ||| n == "from_conn_mut"@
            ||| n == "from_connection"@
            ||| n == "from_tx"@
            ||| n == "begin"@
            ||| n == "commit"@
            ||| n == "rollback"@
        },
        ({
            let n = unraw_text(other@);
            &&& n != "from_conn"@
            &&& n != "from_conn_mut"@
            &&& n != "from_connection"@
            &&& n != "from_tx"@
            &&& n != "begin"@
            &&& n != "commit"@
            &&& n != "rollback"@
        } && method_failure(m, i) is None) ==> method_failure(QueryMethod { name: other, ..m }, i) is None,
{
}

/// Dropping the raw marker changes only text that begins with `r#`, and
/// removes exactly those two characters.
pub proof fn law_unraw(text: Seq<char>)
    ensures
        !(text.len() >= 2 && text[0] == 'r' && text[1] == '#') ==> unraw_text(text) == text,
        (text.len() >= 2 && text[0] == 'r' && text[1] == '#') ==> seq!['r', '#'] + unraw_text(text) == text,
{
    if text.len() >= 2 && text[0] == 'r' && text[1] == '#' {
        assert(seq!['r', '#'] + text.skip(2) =~= text);
    }
}

/// A named field without `#[column]` is read from the column spelled
/// exactly like its identifier, minus a leading `r#`.
pub proof fn law_column_named_like_field(field: RowField, f: usize, c: Column)
    requires
        field_failure(field, f) is None,
        column_planned(field, f, c),
        field.ident is Some,
        !named_before(field.attrs@, "column"@, field.attrs.len() as int),
    ensures
        c matches Column::Name(n) && {
            let id = field.ident->0@;
            &&& (id.len() >= 2 && id[0] == 'r' && id[1] == '#') ==> seq!['r', '#'] + n@ == id
            &&& !(id.len() >= 2 && id[0] == 'r' && id[1] == '#') ==> n@ == id
        },
{
    if let Column::Attribute(j) = c {
        assert(named_before(field.attrs@, "column"@, field.attrs.len() as int));
    }
    law_unraw(field.ident->0@);
}

/// `#[derive(FromRow)]` accepts a type exactly when it is a named or tuple
/// struct, none of its own attributes is `column`, it has at most one
/// `from_row` attribute, whose arguments read and choose a crate, and its
/// fields are accepted; whatever other attributes it carries.
pub proof fn law_row_acceptance(t: RowInput)
    ensures
        row_failure(t) is None <==> {
            &&& forall|j: int| 0 <= j < t.attrs.len() ==> !attr_is(#[trigger] t.attrs@[j], "column"@)
            &&& forall|j: int|
                0 <= j < t.attrs.len() && attr_is(#[trigger] t.attrs@[j], "from_row"@) ==> (t.attrs@[j].args matches Ok(
                    a,
                ) && crate_choice(a@) is Ok)
            &&& forall|j: int, k: int|
                0 <= j < k < t.attrs.len() && attr_is(#[trigger] t.attrs@[j], "from_row"@) ==> !attr_is(
                    #[trigger] t.attrs@[k],
                    "from_row"@,
                )
            &&& t.data is Named || t.data is Unnamed
            &&& forall|f: int|
                0 <= f < row_fields(t.data).len() ==> field_failure(#[trigger] row_fields(t.data)[f], f as usize)
                    is None
        },
{
    let attrs = t.attrs@;
    let fields = row_fields(t.data);
    lemma_first_none(type_attr_fault_at(attrs), attrs.len() as int);
    lemma_first_none(field_fault_at(fields), fields.len() as int);
    if let Some(j) = first(type_attr_fault_at(attrs), attrs.len() as int) {
        assert(is_first(type_attr_fault_at(attrs), attrs.len() as int, j));
    }
    if let Some(f) = first(field_fault_at(fields), fields.len() as int) {
        assert(is_first(field_fault_at(fields), fields.len() as int, f));
    }
    let attrs_ok = forall|j: int| 0 <= j < attrs.len() ==> !#[trigger] type_attr_fault_at(attrs)(j);
    if attrs_ok {
        assert forall|j: int| 0 <= j < t.attrs.len() implies !attr_is(#[trigger] t.attrs@[j], "column"@) by {
            assert(!type_attr_fault_at(attrs)(j));
        }
        assert forall|j: int| 0 <= j < t.attrs.len() && attr_is(#[trigger] t.attrs@[j], "from_row"@) implies (
        t.attrs@[j].args matches Ok(a) && crate_choice(a@) is Ok) by {
            assert(!type_attr_fault_at(attrs)(j));
        }
        assert forall|j: int, k: int|
            0 <= j < k < t.attrs.len() && attr_is(#[trigger] t.attrs@[j], "from_row"@) implies !attr_is(
            #[trigger] t.attrs@[k],
            "from_row"@,
        ) by {
            assert(!type_attr_fault_at(attrs)(k));
            if attr_is(attrs[k], "from_row"@) {
                assert(named_before(attrs, "from_row"@, k));
            }
        }
    }
    if (forall|j: int| 0 <= j < t.attrs.len() ==> !attr_is(#[trigger] t.attrs@[j], "column"@)) && (forall|j: int|
        0 <= j < t.attrs.len() && attr_is(#[trigger] t.attrs@[j], "from_row"@) ==> (t.attrs@[j].args matches Ok(a)
            && crate_choice(a@) is Ok)) && (forall|j: int, k: int|
        0 <= j < k < t.attrs.len() && attr_is(#[trigger] t.attrs@[j], "from_row"@) ==> !attr_is(
            #[trigger] t.attrs@[k],
            "from_row"@,
        )) {
        assert forall|j: int| 0 <= j < attrs.len() implies !#[trigger] type_attr_fault_at(attrs)(j) by {
            assert(!attr_is(t.attrs@[j], "column"@));
            if attr_is(attrs[j], "from_row"@) {
                if named_before(attrs, "from_row"@, j) {
                    let k = choose|k: int| 0 <= k < j && #[trigger] attr_is(attrs[k], "from_row"@);
                    assert(attr_is(t.attrs@[k], "from_row"@));
                    assert(!attr_is(t.attrs@[j], "from_row"@));
                }
                assert(t.attrs@[j].args matches Ok(a) && crate_choice(a@) is Ok);
            }
        }
    }
    if t.data is Named || t.data is Unnamed {
        if forall|f: int| 0 <= f < fields.len() ==> !#[trigger] field_fault_at(fields)(f) {
            assert forall|f: int| 0 <= f < fields.len() implies field_failure(#[trigger] fields[f], f as usize) is None by {
                assert(!field_fault_at(fields)(f));
            }
        }
        if forall|f: int| 0 <= f < fields.len() ==> field_failure(#[trigger] fields[f], f as usize) is None {
            assert forall|f: int| 0 <= f < fields.len() implies !#[trigger] field_fault_at(fields)(f) by {
                assert(field_failure(fields[f], f as usize) is None);
            }
        }
    }
}

/// An attribute whose path is `doc`, `cfg` or `cfg_attr` is never refused
/// as unsupported on a query trait or method, whatever its form or value;
/// a refusal as unsupported points at an attribute of another name.
pub proof fn law_doc_and_conditions_allowed(args: Seq<MetaItem>, t: QueryTrait)
    ensures
        forall|j: int| 0 <= j < t.attrs.len() && names_doc_or_condition(#[trigger] t.attrs@[j]) ==> attr_allowed(t.attrs@[j]),
        match queries_failure(args, t) {
            Some(e) => e.kind == ErrorKind::UnsupportedAttribute ==> {
                ||| (e.target matches Target::Attribute(j) && j < t.attrs.len() && !names_doc_or_condition(
                    t.attrs@[j as int],
                ))
                ||| (e.target matches Target::MethodAttribute(i, j) && i < t.members.len() && (
                t.members@[i as int] matches TraitMember::Method(m) && j < m.attrs.len() && !names_doc_or_condition(
                    m.attrs@[j as int],
                ) && !attr_query(m.attrs@[j as int])))
            },
            None => true,
        },
{
    let attrs = t.attrs@;
    let members = t.members@;
    if let Some(j) = first(unsupported_at(attrs), attrs.len() as int) {
        assert(is_first(unsupported_at(attrs), attrs.len() as int, j));
    }
    if let Some(i) = first(member_fault_at(members), members.len() as int) {
        assert(is_first(member_fault_at(members), members.len() as int, i));
        if let TraitMember::Method(m) = members[i] {
            let ma = m.attrs@;
            assert(ma.len() == m.attrs.len());
            if let Some(j) = first(kept_unsupported_at(ma), ma.len() as int) {
                assert(is_first(kept_unsupported_at(ma), ma.len() as int, j));
            }
            if let Some(j) = first(query_fault_at(ma), ma.len() as int) {
                assert(is_first(query_fault_at(ma), ma.len() as int, j));
            }
        }
    }
}

/// An accepted method binds, in order, exactly the identifiers its inputs
/// are written with, raw markers kept; it keeps exactly its attributes other
/// than `query`, in order; and its SQL is its one `query` attribute.
pub proof fn law_method_plan_as_written(m: QueryMethod, i: usize, p: MethodPlan)
    requires
        method_failure(m, i) is None,
        method_planned(m, p),
    ensures
        p.arguments.len() == m.inputs.len(),
        forall|k: int|
            0 <= k < m.inputs.len() ==> (#[trigger] m.inputs@[k] matches FnInput::Typed {
                has_attributes: false,
                pattern: Pattern::Ident { name, by_ref: false, subpattern: false },
            } && p.arguments@[k]@ == name@),
        forall|j: int| 0 <= j < m.attrs.len() ==> (!attr_is(#[trigger] m.attrs@[j], "query"@) <==> p.attributes@.contains(j as usize)),
        forall|a: int, b: int| 0 <= a < b < p.attributes.len() ==> #[trigger] p.attributes@[a] < #[trigger] p.attributes@[b],
        forall|k: int| 0 <= k < p.attributes.len() ==> #[trigger] p.attributes@[k] < m.attrs.len(),
        attr_is(m.attrs@[p.sql as int], "query"@),
{
    let inputs = m.inputs@;
    let attrs = m.attrs@;
    lemma_first_none(input_fault_at(inputs), inputs.len() as int);
    assert forall|k: int| 0 <= k < m.inputs.len() implies (#[trigger] m.inputs@[k] matches FnInput::Typed {
        has_attributes: false,
        pattern: Pattern::Ident { name, by_ref: false, subpattern: false },
    } && p.arguments@[k]@ == name@) by {
        assert(!input_fault_at(inputs)(k));
        assert(p.arguments@[k]@ == input_name(inputs[k]));
    }
    assert(attrs.len() == m.attrs.len());
    lemma_positions(attrs, kept_attr());
    assert forall|j: int| 0 <= j < m.attrs.len() implies (!attr_is(#[trigger] m.attrs@[j], "query"@)
        <==> p.attributes@.contains(j as usize)) by {
        if p.attributes@.contains(j as usize) {
            let w = choose|w: int| 0 <= w < p.attributes.len() && p.attributes@[w] == j as usize;
            assert(positions(attrs, kept_attr())[w] == j as usize);
        }
        if !attr_is(attrs[j], "query"@) {
            assert(kept_attr()(attrs[j]));
        }
    }
}

/// The crate is given by an argument only when there is exactly one, of
/// the form `crate = path`, with no qualified self type.
pub proof fn law_crate_argument_form(args: Seq<MetaItem>)
    ensures
        crate_choice(args) matches Ok(CrateRef::Argument(k)) ==> {
            &&& k == 0
            &&& args.len() == 1
            &&& args[0].ident matches Some(id) && id@ == "crate"@
            &&& args[0].form == MetaForm::NameValue(MetaValue::Path { qualified: false })
        },
        crate_choice(args) == Ok::<CrateRef, MacroError>(CrateRef::Default) <==> args.len() == 0,
{
}

/// The conditions of an accepted trait are exactly its attributes named
/// `cfg` or `cfg_attr`, in order.
pub proof fn law_conditions_named(args: Seq<MetaItem>, t: QueryTrait, p: QueriesPlan)
    requires
        queries_failure(args, t) is None,
        queries_planned(args, t, p),
    ensures
        forall|j: int|
            0 <= j < t.attrs.len() ==> ((attr_is(#[trigger] t.attrs@[j], "cfg"@) || attr_is(t.attrs@[j], "cfg_attr"@))
                <==> p.conditions@.contains(j as usize)),
{
    law_trait_conditions(args, t, p);
    let attrs = t.attrs@;
    assert(attrs.len() == t.attrs.len());
    lemma_positions(attrs, condition_attr());
    assert forall|j: int| 0 <= j < t.attrs.len() implies ((attr_is(#[trigger] t.attrs@[j], "cfg"@) || attr_is(
        t.attrs@[j],
        "cfg_attr"@,
    )) <==> p.conditions@.contains(j as usize)) by {
        if p.conditions@.contains(j as usize) {
            let w = choose|w: int| 0 <= w < p.conditions.len() && p.conditions@[w] == j as usize;
            assert(positions(attrs, condition_attr())[w] == j as usize);
        }
    }
}

/// An attribute is named `name` exactly when its path is the single
/// identifier spelled `name`; a raw identifier `r#name` is not `name`.
pub proof fn law_attribute_names(a: Attr, name: Seq<char>)
    ensures
        attr_is(a, name) <==> (a.meta.ident matches Some(id) && id@ == name),
        a.meta.ident is None ==> !attr_is(a, name),
{
}

} // verus!
