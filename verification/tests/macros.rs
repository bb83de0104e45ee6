use queries_rusqlite_macros::error::SourceError;
use queries_rusqlite_macros::from_row::{Column, RowCrate};
use queries_rusqlite_macros::krate::CrateRef;
use queries_rusqlite_macros::queries::GeneratedKind;
use queries_rusqlite_macros::source::{crate_path_from_source, from_row_from_source, queries_from_source};

fn queries(attr: &str, item: &str) -> Result<queries_rusqlite_macros::queries::QueriesPlan, SourceError> {
    queries_from_source(attr, item).1
}

fn row(item: &str) -> Result<queries_rusqlite_macros::from_row::RowPlan, SourceError> {
    from_row_from_source(item).1
}

fn krate(text: &str) -> Result<CrateRef, SourceError> {
    crate_path_from_source(text).1
}


fn describe(error: &SourceError) -> String {
    match error {
        SourceError::Syntax(message) => message.clone(),
        SourceError::Rule(refusal) => refusal.message(),
    }
}

fn query_error(input: &str, expected: &str) {
    let error = queries("", input).unwrap_err();
    let message = describe(&error);
    assert!(message.contains(expected), "{message}");
}

fn row_error(input: &str, expected: &str) {
    let error = row(input).unwrap_err();
    let message = describe(&error);
    assert!(message.contains(expected), "{message}");
}

fn s(text: &str) -> String {
    text.to_string()
}

#[test]
fn crate_paths() {
    assert_eq!(krate(""), Ok(CrateRef::Default));
    for tokens in ["crate = renamed", "crate = ::renamed,"] {
        assert_eq!(krate(tokens), Ok(CrateRef::Argument(0)));
    }
    for tokens in ["other = renamed", "crate", "crate(renamed)", "crate = renamed, crate = twice"] {
        assert!(describe(&krate(tokens).err().unwrap()).contains("single"));
    }
    for tokens in ["crate = \"renamed\"", "crate = <T as Trait>::Name"] {
        assert!(describe(&krate(tokens).err().unwrap()).contains("crate path"));
    }
    assert!(krate("=").is_err());
}

#[test]
fn query_expansion_preserves_visibility_docs_and_conditions() {
    let plan = queries(
        "crate = renamed",
        r#"
            #[doc = "Read users."]
            #[cfg(feature = "users")]
            #[cfg_attr(feature = "extra", doc = "Extra docs.")]
            pub trait Users {
                #[doc = "Read one user."]
                #[cfg(feature = "one")]
                #[query = include_str!("one.sql")]
                fn one(mut r#type: i64, name: &str) -> Option<User>;
                #[query = SQL]
                fn execute();
            }
        "#,
    )
    .unwrap();
    // The renamed crate is used in place of `queries_rusqlite`.
    assert_eq!(plan.krate, CrateRef::Argument(0));
    // One struct and five impls; `cfg` and `cfg_attr` are on every one of them.
    assert_eq!(plan.conditions, vec![1, 2]);
    assert_eq!(plan.items.len(), 6);
    assert_eq!(plan.items[0].kind, GeneratedKind::Struct);
    assert_eq!(plan.items[0].attributes, vec![0, 1, 2]);
    assert_eq!(plan.items[1].kind, GeneratedKind::QueryMethods);
    for generated in &plan.items[1..] {
        assert_eq!(generated.attributes, vec![1, 2]);
    }
    assert_eq!(plan.methods.len(), 2);
    // `pub fn one`: its docs and `cfg` are kept, its SQL is `include_str!("one.sql")`,
    // `params![r#type, name]`, and it returns `Result<Option<User>>`.
    assert_eq!(plan.methods[0].sql, 2);
    assert_eq!(plan.methods[0].attributes, vec![0, 1]);
    assert_eq!(plan.methods[0].arguments, vec![s("r#type"), s("name")]);
    assert!(!plan.methods[0].returns_unit);
    // `execute` returns `Result<()>`.
    assert_eq!(plan.methods[1].sql, 0);
    assert!(plan.methods[1].attributes.is_empty());
    assert!(plan.methods[1].arguments.is_empty());
    assert!(plan.methods[1].returns_unit);
}

#[test]
fn empty_query_trait_is_valid() {
    let plan = queries("", "trait Empty {}").unwrap();
    assert_eq!(plan.krate, CrateRef::Default);
    assert!(plan.methods.is_empty());
    assert_eq!(plan.items.len(), 6);
    assert!(plan.items.iter().all(|generated| generated.attributes.is_empty()));
}

#[test]
fn invalid_query_trait_shapes() {
    for input in [
        "unsafe trait Invalid {}",
        "auto trait Invalid {}",
        "trait Invalid<T> {}",
        "trait Invalid where Self: Sized, {}",
        "trait Invalid: Sized {}",
    ] {
        query_error(input, "query traits cannot");
    }
    for input in ["trait Invalid { type Item; }", "trait Invalid { const ITEM: i32; }"] {
        query_error(input, "expected a query method");
    }
    query_error("struct Invalid;", "trait");
    query_error("#[allow(dead_code)] trait Invalid {}", "unsupported query attribute");
    assert!(queries("invalid", "trait Empty {}").is_err());
}

#[test]
fn invalid_query_signatures() {
    for input in [
        "trait Invalid { const fn bad(); }",
        "trait Invalid { async fn bad(); }",
        "trait Invalid { unsafe fn bad(); }",
        "trait Invalid { extern \"C\" fn bad(); }",
        "trait Invalid { fn bad(...); }",
        "trait Invalid { fn bad<T>(); }",
        "trait Invalid { fn bad() where Self: Sized; }",
        "trait Invalid { fn bad() {} }",
    ] {
        query_error(input, "synchronous declarations");
    }
    query_error("trait Invalid { #[query = \"SELECT 1\"] safe fn bad(); }", "expected");
    for name in ["from_conn", "from_conn_mut", "from_connection", "from_tx", "begin", "commit", "rollback"] {
        query_error(&format!("trait Invalid {{ fn {name}(); }}"), "reserved");
    }
    query_error("trait Invalid { fn r#begin(); }", "reserved");
    query_error("trait Invalid { #[query = \"\"] fn bad(&self); }", "receiver");
    for argument in ["(left, right): (i32, i32)", "ref value: i32", "value @ _: i32"] {
        query_error(&format!("trait Invalid {{ #[query = \"\"] fn bad({argument}); }}"), "simple names");
    }
}

#[test]
fn invalid_query_attributes() {
    query_error(
        "trait Invalid { #[query = \"SELECT 1\"] fn bad(#[cfg(any())] ignored: i64); }",
        "query arguments cannot have attributes",
    );
    query_error("trait Invalid { fn bad(); }", "missing");
    query_error("trait Invalid { #[query = \"\"] #[query = \"\"] fn bad(); }", "duplicate");
    query_error("trait Invalid { #[query(\"\")] fn bad(); }", "expected `#[query = SQL]`");
    query_error("trait Invalid { #[query = \"\"] #[inline] fn bad(); }", "unsupported query attribute");
}

#[test]
fn named_from_row_expansion() {
    let plan = row(
        r#"
            #[from_row(crate = renamed)]
            #[doc = "A row."]
            struct Row<T> where T: Clone {
                #[doc = "Its identifier."]
                id: i64,
                r#type: T,
                #[column = "different"]
                name: String,
            }
        "#,
    )
    .unwrap();
    // `impl<T> renamed::FromRow for Row<T>`
    assert_eq!(plan.krate, RowCrate::Attribute(0, CrateRef::Argument(0)));
    // `Self { id: row.get("id")?, r#type: row.get("type")?, name: row.get("different")? }`
    assert!(plan.named);
    assert_eq!(plan.columns, vec![Column::Name(s("id")), Column::Name(s("type")), Column::Attribute(0)]);
}

#[test]
fn tuple_and_empty_from_row_expansion() {
    let plan = row("struct Row(i64, #[column = \"label\"] String);").unwrap();
    // `Self(row.get(0usize)?, row.get("label")?)`
    assert!(!plan.named);
    assert_eq!(plan.columns, vec![Column::Position(0), Column::Attribute(0)]);
    for input in ["struct Empty {}", "struct Empty();"] {
        let plan = row(input).unwrap();
        assert!(plan.columns.is_empty());
    }
}

#[test]
fn invalid_from_row_shapes_and_attributes() {
    row_error("#[column = \"misplaced\"] struct Invalid(i32);", "column attributes belong on fields");
    row_error("struct Invalid(#[from_row(crate = renamed)] i32);", "from_row attributes belong on the struct");
    row_error("fn invalid() {}", "one of");
    row_error("enum Invalid { A }", "requires a struct");
    row_error("union Invalid { field: i32 }", "requires a struct");
    row_error("struct Invalid;", "named or tuple struct");
    row_error(
        "#[from_row(crate = first)] #[from_row(crate = second)] struct Invalid(i32);",
        "duplicate from_row",
    );
    row_error("#[from_row] struct Invalid(i32);", "arguments");
    row_error("#[from_row(unknown)] struct Invalid(i32);", "single");
    row_error("struct Invalid(#[column = \"first\"] #[column = \"second\"] i32);", "duplicate column");
    row_error("struct Invalid(#[column(\"first\")] i32);", "expected `#[column");
    row_error("struct Invalid(#[column = COLUMN] i32);", "column name string");
    row_error("struct Invalid(#[column = 1] i32);", "column name string");
}
