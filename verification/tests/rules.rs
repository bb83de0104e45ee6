use queries_rusqlite_macros::error::{ErrorKind, MacroError, SourceError, Target};
use queries_rusqlite_macros::source::{from_row_from_source, queries_from_source};
use queries_rusqlite_macros::from_row::{Column, RowField, RowCrate, RowData, RowInput, expand_from_row, field_column};
use queries_rusqlite_macros::krate::{CrateRef, crate_path};
use queries_rusqlite_macros::queries::{
    FnInput, Pattern, QueryMethod, QueryTrait, TraitMember, check_attributes, expand_method, expand_queries,
};
use queries_rusqlite_macros::syntax::{Attr, MetaItem, MetaForm, MetaValue, meta_named, text_is, unraw};

fn queries(attr: &str, item: &str) -> Result<queries_rusqlite_macros::queries::QueriesPlan, SourceError> {
    queries_from_source(attr, item).1
}

fn row(item: &str) -> Result<queries_rusqlite_macros::from_row::RowPlan, SourceError> {
    from_row_from_source(item).1
}


fn s(text: &str) -> String {
    text.to_string()
}

fn nv(name: &str, value: MetaValue) -> MetaItem {
    MetaItem { ident: Some(s(name)), form: MetaForm::NameValue(value) }
}

fn attr(meta: MetaItem) -> Attr {
    Attr { meta, args: Err(s("expected parentheses")) }
}

fn list(name: &str, args: Vec<MetaItem>) -> Attr {
    Attr { meta: MetaItem { ident: Some(s(name)), form: MetaForm::List }, args: Ok(args) }
}

fn query(sql: &str) -> Attr {
    attr(nv("query", MetaValue::Str(s(sql))))
}

fn doc() -> Attr {
    attr(nv("doc", MetaValue::Str(s("text"))))
}

fn path_attr(name: &str) -> Attr {
    attr(MetaItem { ident: Some(s(name)), form: MetaForm::Path })
}

fn method(name: &str, attrs: Vec<Attr>, inputs: Vec<FnInput>) -> QueryMethod {
    QueryMethod {
        attrs,
        is_const: false,
        is_async: false,
        has_safety: false,
        has_abi: false,
        is_variadic: false,
        has_generic_params: false,
        has_where_clause: false,
        has_body: false,
        name: s(name),
        inputs,
        returns_unit: true,
    }
}

fn arg(name: &str) -> FnInput {
    FnInput::Typed { has_attributes: false, pattern: Pattern::Ident { name: s(name), by_ref: false, subpattern: false } }
}

fn query_trait(attrs: Vec<Attr>, members: Vec<TraitMember>) -> QueryTrait {
    QueryTrait {
        attrs,
        is_unsafe: false,
        is_auto: false,
        has_generic_params: false,
        has_where_clause: false,
        has_supertraits: false,
        members,
    }
}

fn err(kind: ErrorKind, target: Target) -> MacroError {
    MacroError { kind, target }
}

#[test]
fn every_refusal_has_its_message() {
    let expected = [
        (ErrorKind::ExpectedCratePath, "expected a crate path"),
        (ErrorKind::ExpectedSingleCrateArgument, "expected a single `crate = path` argument"),
        (ErrorKind::InvalidTraitShape, "query traits cannot be unsafe, auto, generic, or have bounds"),
        (ErrorKind::UnsupportedAttribute, "unsupported query attribute"),
        (ErrorKind::ExpectedQueryMethod, "expected a query method"),
        (
            ErrorKind::InvalidMethodSignature,
            "query methods must be synchronous declarations without qualifiers, generics, or bodies",
        ),
        (ErrorKind::ReservedMethodName, "this name is reserved for a generated method"),
        (ErrorKind::DuplicateQuery, "duplicate query attribute"),
        (ErrorKind::ExpectedQueryForm, "expected `#[query = SQL]`"),
        (ErrorKind::MissingQuery, "missing `#[query = SQL]` attribute"),
        (ErrorKind::Receiver, "query declarations must not have a receiver"),
        (ErrorKind::ArgumentAttribute, "query arguments cannot have attributes"),
        (ErrorKind::ArgumentPattern, "query arguments must have simple names"),
        (ErrorKind::ColumnOnStruct, "column attributes belong on fields"),
        (ErrorKind::DuplicateFromRow, "duplicate from_row attribute"),
        (ErrorKind::AttributeArguments(s("from the parser")), "from the parser"),
        (ErrorKind::NotAStruct, "FromRow requires a struct"),
        (ErrorKind::UnitStruct, "FromRow requires a named or tuple struct"),
        (ErrorKind::FromRowOnField, "from_row attributes belong on the struct"),
        (ErrorKind::DuplicateColumn, "duplicate column attribute"),
        (ErrorKind::ExpectedColumnForm, "expected `#[column = \"name\"]`"),
        (ErrorKind::ExpectedColumnString, "expected a column name string"),
    ];
    for (kind, message) in expected {
        assert_eq!(err(kind, Target::Item).message(), message);
    }
}

#[test]
fn raw_markers_are_dropped_once() {
    assert_eq!(unraw(&s("r#type")), "type");
    assert_eq!(unraw(&s("plain")), "plain");
    assert_eq!(unraw(&s("r")), "r");
    assert_eq!(unraw(&s("r#")), "");
    assert_eq!(unraw(&s("r#r#x")), "r#x");
    assert!(text_is(&s("doc"), "doc"));
    assert!(!text_is(&s("r#doc"), "doc"));
    assert!(meta_named(&nv("crate", MetaValue::Path { qualified: false }), "crate"));
    assert!(!meta_named(&MetaItem { ident: None, form: MetaForm::Path }, "crate"));
}

#[test]
fn crate_argument_errors_point_at_the_argument() {
    assert_eq!(
        crate_path(&vec![nv("crate", MetaValue::Other)]),
        Err(err(ErrorKind::ExpectedCratePath, Target::Argument(0)))
    );
    assert_eq!(
        crate_path(&vec![nv("crate", MetaValue::Path { qualified: false }), nv("crate", MetaValue::Path { qualified: false })]),
        Err(err(ErrorKind::ExpectedSingleCrateArgument, Target::Argument(1)))
    );
    // Two or more arguments are always refused, even after a good one.
    assert!(crate_path(&vec![nv("crate", MetaValue::Path { qualified: false }), nv("other", MetaValue::Path { qualified: false })]).is_err());
    assert_eq!(
        crate_path(&vec![nv("krate", MetaValue::Path { qualified: false })]),
        Err(err(ErrorKind::ExpectedSingleCrateArgument, Target::Argument(0)))
    );
}

#[test]
fn attribute_check_reports_the_first_unsupported() {
    assert_eq!(check_attributes(&vec![doc(), path_attr("inline"), path_attr("must_use")]), Err(1));
    assert_eq!(check_attributes(&vec![doc(), list("cfg", Vec::new()), list("cfg_attr", Vec::new())]), Ok(()));
    assert_eq!(check_attributes(&vec![path_attr("r#doc")]), Err(0));
    assert_eq!(check_attributes(&Vec::new()), Ok(()));
}

#[test]
fn method_checks_come_in_order() {
    // Qualifiers before the name.
    let mut m = method("begin", Vec::new(), Vec::new());
    m.is_async = true;
    assert_eq!(expand_method(&m, 4), Err(err(ErrorKind::InvalidMethodSignature, Target::Member(4))));
    // The name before the attributes.
    let m = method("commit", vec![path_attr("inline")], Vec::new());
    assert_eq!(expand_method(&m, 2), Err(err(ErrorKind::ReservedMethodName, Target::MethodName(2))));
    // A misplaced query attribute before any unsupported attribute, wherever it stands.
    let m = method("q", vec![path_attr("inline"), query("a"), query("b")], Vec::new());
    assert_eq!(expand_method(&m, 0), Err(err(ErrorKind::DuplicateQuery, Target::MethodAttribute(0, 2))));
    let m = method("q", vec![path_attr("inline"), list("query", Vec::new())], Vec::new());
    assert_eq!(expand_method(&m, 0), Err(err(ErrorKind::ExpectedQueryForm, Target::MethodAttribute(0, 1))));
    // Unsupported attributes before a missing query.
    let m = method("q", vec![doc(), path_attr("inline")], Vec::new());
    assert_eq!(expand_method(&m, 1), Err(err(ErrorKind::UnsupportedAttribute, Target::MethodAttribute(1, 1))));
    // A missing query before the inputs.
    let m = method("q", vec![doc()], vec![FnInput::Receiver]);
    assert_eq!(expand_method(&m, 1), Err(err(ErrorKind::MissingQuery, Target::MethodName(1))));
    // The first bad input.
    let m = method("q", vec![query("a")], vec![arg("a"), FnInput::Receiver]);
    assert_eq!(expand_method(&m, 3), Err(err(ErrorKind::Receiver, Target::Input(3, 1))));
    let m = method(
        "q",
        vec![query("a")],
        vec![FnInput::Typed { has_attributes: true, pattern: Pattern::Other }],
    );
    assert_eq!(expand_method(&m, 3), Err(err(ErrorKind::ArgumentAttribute, Target::InputAttribute(3, 0))));
    let m = method("q", vec![query("a")], vec![arg("a"), FnInput::Typed { has_attributes: false, pattern: Pattern::Other }]);
    assert_eq!(expand_method(&m, 3), Err(err(ErrorKind::ArgumentPattern, Target::InputPattern(3, 1))));
}

#[test]
fn accepted_method_plan() {
    // #[doc] #[cfg(x)] #[query = "..."] #[cfg_attr(..)] fn find(r#id: i64, name: &str) -> Row;
    let mut m = method(
        "find",
        vec![doc(), list("cfg", Vec::new()), query("SELECT"), list("cfg_attr", Vec::new())],
        vec![arg("r#id"), arg("name")],
    );
    m.returns_unit = false;
    let plan = expand_method(&m, 0).unwrap();
    // Exactly one query attribute, and it is the SQL.
    assert_eq!(plan.sql, 2);
    // Every other attribute is kept, in order.
    assert_eq!(plan.attributes, vec![0, 1, 3]);
    // Arguments bind in declaration order, names as written.
    assert_eq!(plan.arguments, vec![s("r#id"), s("name")]);
    assert!(!plan.returns_unit);
    // A raw identifier that is not reserved once unraw'd is fine.
    assert!(expand_method(&method("r#fetch", vec![query("x")], Vec::new()), 0).is_ok());
}

#[test]
fn trait_errors_point_at_their_member() {
    let good = || TraitMember::Method(method("a", vec![query("x")], Vec::new()));
    let t = query_trait(Vec::new(), vec![good(), TraitMember::Other, good()]);
    assert_eq!(expand_queries(&Vec::new(), &t), Err(err(ErrorKind::ExpectedQueryMethod, Target::Member(1))));
    let t = query_trait(Vec::new(), vec![good(), TraitMember::Method(method("b", Vec::new(), Vec::new()))]);
    assert_eq!(expand_queries(&Vec::new(), &t), Err(err(ErrorKind::MissingQuery, Target::MethodName(1))));
    // The crate arguments are judged first, then the shape, then the attributes.
    let mut t = query_trait(vec![path_attr("inline")], vec![TraitMember::Other]);
    t.is_unsafe = true;
    assert_eq!(
        expand_queries(&vec![nv("other", MetaValue::Path { qualified: false })], &t),
        Err(err(ErrorKind::ExpectedSingleCrateArgument, Target::Argument(0)))
    );
    assert_eq!(expand_queries(&Vec::new(), &t), Err(err(ErrorKind::InvalidTraitShape, Target::Item)));
    t.is_unsafe = false;
    assert_eq!(expand_queries(&Vec::new(), &t), Err(err(ErrorKind::UnsupportedAttribute, Target::Attribute(0))));
}

#[test]
fn conditions_are_the_cfg_attributes_in_order() {
    let t = query_trait(
        vec![list("cfg_attr", Vec::new()), doc(), list("cfg", Vec::new()), doc(), list("cfg", Vec::new())],
        Vec::new(),
    );
    let plan = expand_queries(&Vec::new(), &t).unwrap();
    assert_eq!(plan.conditions, vec![0, 2, 4]);
}

fn tuple_field(attrs: Vec<Attr>) -> RowField {
    RowField { attrs, ident: None }
}

#[test]
fn from_row_errors_point_inside_attributes() {
    // #[from_row(crate = "x")]: the argument inside the attribute.
    let input = RowInput {
        attrs: vec![doc(), list("from_row", vec![nv("crate", MetaValue::Str(s("x")))])],
        data: RowData::Unit,
    };
    assert_eq!(
        expand_from_row(&input),
        Err(err(ErrorKind::ExpectedCratePath, Target::AttributeArgument(1, 0)))
    );
    // Unreadable arguments carry the parser's message.
    let input = RowInput {
        attrs: vec![path_attr("from_row")],
        data: RowData::Unit,
    };
    let expected = match &input.attrs[0].args {
        Err(message) => message.clone(),
        Ok(_) => unreachable!(),
    };
    assert_eq!(
        expand_from_row(&input),
        Err(err(ErrorKind::AttributeArguments(expected), Target::Attribute(0)))
    );
    // #[column = COLUMN] points at `column = COLUMN`; #[column = 1] at `1`.
    let field = tuple_field(vec![attr(nv("column", MetaValue::Path { qualified: false }))]);
    assert_eq!(field_column(&field, 2), Err(err(ErrorKind::ExpectedColumnString, Target::FieldAttributeMeta(2, 0))));
    let field = tuple_field(vec![doc(), attr(nv("column", MetaValue::Literal))]);
    assert_eq!(field_column(&field, 2), Err(err(ErrorKind::ExpectedColumnString, Target::FieldAttributeValue(2, 1))));
    // The first bad field is reported.
    let input = RowInput {
        attrs: Vec::new(),
        data: RowData::Unnamed(vec![
            tuple_field(Vec::new()),
            tuple_field(vec![path_attr("column")]),
            tuple_field(vec![list("from_row", Vec::new())]),
        ]),
    };
    assert_eq!(expand_from_row(&input), Err(err(ErrorKind::ExpectedColumnForm, Target::FieldAttribute(1, 0))));
    // The type's attributes are judged before its kind.
    let input = RowInput { attrs: vec![attr(nv("column", MetaValue::Str(s("c"))))], data: RowData::Enum };
    assert_eq!(expand_from_row(&input), Err(err(ErrorKind::ColumnOnStruct, Target::Attribute(0))));
}

#[test]
fn from_row_columns() {
    // An empty `#[from_row()]` still counts as the crate choice: the default.
    let input = RowInput {
        attrs: vec![doc(), list("from_row", Vec::new())],
        data: RowData::Named(vec![
            RowField { attrs: vec![doc(), attr(nv("column", MetaValue::Str(s("x"))))], ident: Some(s("r#a")) },
            RowField { attrs: Vec::new(), ident: Some(s("r#match")) },
            RowField { attrs: Vec::new(), ident: Some(s("plain")) },
        ]),
    };
    let plan = expand_from_row(&input).unwrap();
    assert_eq!(plan.krate, RowCrate::Attribute(1, CrateRef::Default));
    assert!(plan.named);
    assert_eq!(plan.columns, vec![Column::Attribute(1), Column::Name(s("match")), Column::Name(s("plain"))]);
    let input = RowInput {
        attrs: Vec::new(),
        data: RowData::Unnamed(vec![tuple_field(Vec::new()), tuple_field(Vec::new()), tuple_field(Vec::new())]),
    };
    let plan = expand_from_row(&input).unwrap();
    assert_eq!(plan.columns, vec![Column::Position(0), Column::Position(1), Column::Position(2)]);
}

#[test]
fn source_text_is_read_then_judged() {
    // The arguments are judged before the trait is read.
    assert_eq!(
        queries("other = x", "not a trait"),
        Err(SourceError::Rule(err(ErrorKind::ExpectedSingleCrateArgument, Target::Argument(0))))
    );
    assert!(matches!(queries("=", "trait T {}"), Err(SourceError::Syntax(_))));
    assert!(matches!(queries("", "trait T {"), Err(SourceError::Syntax(_))));
    // Targets point into the text that was read.
    assert_eq!(
        queries("", "trait T { #[query = \"a\"] fn a(); #[doc = \"d\"] #[query = \"b\"] #[query = \"c\"] fn b(); }"),
        Err(SourceError::Rule(err(ErrorKind::DuplicateQuery, Target::MethodAttribute(1, 2))))
    );
    assert_eq!(
        row("#[doc = \"d\"] #[from_row(crate = \"x\")] struct S(i32);"),
        Err(SourceError::Rule(err(ErrorKind::ExpectedCratePath, Target::AttributeArgument(1, 0))))
    );
    assert_eq!(
        row("struct S { a: i32, #[column = 1] b: i32 }"),
        Err(SourceError::Rule(err(ErrorKind::ExpectedColumnString, Target::FieldAttributeValue(1, 0))))
    );
    // A raw field name is read from the column without its marker.
    let plan = row("struct S { r#match: i32 }").unwrap();
    assert_eq!(plan.columns, vec![Column::Name(s("match"))]);
}

#[test]
fn what_was_read_comes_with_the_answer() {
    let (read, answer) = queries_from_source("crate = <T as Trait>::Name", "trait T {}");
    let args = read.arguments.unwrap();
    assert_eq!(args, vec![nv("crate", MetaValue::Path { qualified: true })]);
    assert!(read.item.is_none());
    assert_eq!(answer, Err(SourceError::Rule(err(ErrorKind::ExpectedCratePath, Target::Argument(0)))));
    let (read, answer) = queries_from_source("crate = a::b", "trait T { #[query = \"x\"] fn f(id: i64); }");
    assert_eq!(read.arguments.unwrap(), vec![nv("crate", MetaValue::Path { qualified: false })]);
    let item = read.item.unwrap();
    assert_eq!(item.members.len(), 1);
    assert_eq!(answer.unwrap().methods[0].arguments, vec![s("id")]);
    let (read, answer) = from_row_from_source("struct S(#[column = \"c\"] i32);");
    assert_eq!(read.unwrap().data, RowData::Unnamed(vec![RowField {
        attrs: vec![Attr {
            meta: nv("column", MetaValue::Str(s("c"))),
            args: Err(s("expected parentheses: #[column(...)]")),
        }],
        ident: None,
    }]));
    assert_eq!(answer.unwrap().columns, vec![Column::Attribute(0)]);
    let (read, answer) = from_row_from_source("struct");
    assert!(read.is_none());
    assert!(matches!(answer, Err(SourceError::Syntax(_))));
}
