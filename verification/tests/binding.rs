use binding_table::ExecutionContext;
use binding_table::FieldValueTypeMismatchError;
use binding_table::LhsValue;
use binding_table::Scheme;
use binding_table::Type;

fn scheme_foo_int() -> Scheme {
    let mut scheme = Scheme::new();
    assert!(scheme.add_field("foo".to_owned(), Type::Int));
    scheme
}

#[test]
fn test_field_value_type_mismatch() {
    let scheme = scheme_foo_int();

    let mut ctx = ExecutionContext::new(&scheme);

    assert_eq!(
        ctx.set_field_value("foo", LhsValue::Bool(false)),
        Err(FieldValueTypeMismatchError {
            field_type: Type::Int,
            value_type: Type::Bool
        })
    );
}

#[test]
fn create_leaves_every_slot_empty() {
    let mut scheme = Scheme::new();
    assert!(scheme.add_field("a".to_owned(), Type::Int));
    assert!(scheme.add_field("b".to_owned(), Type::Bool));
    assert!(scheme.add_field("c".to_owned(), Type::Bytes));

    let ctx = ExecutionContext::new(&scheme);

    for name in ["a", "b", "c"] {
        let field = scheme.get_field_index(name).unwrap();
        assert!(!ctx.is_field_value_set(field));
    }
}

#[test]
fn set_then_get_returns_value_unchanged() {
    let mut scheme = Scheme::new();
    assert!(scheme.add_field("num".to_owned(), Type::Int));
    assert!(scheme.add_field("flag".to_owned(), Type::Bool));
    assert!(scheme.add_field("raw".to_owned(), Type::Bytes));

    let mut ctx = ExecutionContext::new(&scheme);

    assert_eq!(ctx.set_field_value("num", LhsValue::Int(-7)), Ok(()));
    assert_eq!(ctx.set_field_value("flag", LhsValue::Bool(true)), Ok(()));
    assert_eq!(
        ctx.set_field_value("raw", LhsValue::Bytes(vec![0, 255, 7])),
        Ok(())
    );

    let num = scheme.get_field_index("num").unwrap();
    let flag = scheme.get_field_index("flag").unwrap();
    let raw = scheme.get_field_index("raw").unwrap();

    assert_eq!(ctx.get_field_value_unchecked(num), &LhsValue::Int(-7));
    assert_eq!(ctx.get_field_value_unchecked(flag), &LhsValue::Bool(true));
    assert_eq!(
        ctx.get_field_value_unchecked(raw),
        &LhsValue::Bytes(vec![0, 255, 7])
    );
}

#[test]
fn mismatched_set_leaves_empty_slot_empty() {
    let scheme = scheme_foo_int();
    let mut ctx = ExecutionContext::new(&scheme);

    assert_eq!(
        ctx.set_field_value("foo", LhsValue::Bytes(vec![1, 2])),
        Err(FieldValueTypeMismatchError {
            field_type: Type::Int,
            value_type: Type::Bytes
        })
    );

    let foo = scheme.get_field_index("foo").unwrap();
    assert!(!ctx.is_field_value_set(foo));
}

#[test]
fn mismatched_set_keeps_previous_value() {
    let scheme = scheme_foo_int();
    let mut ctx = ExecutionContext::new(&scheme);

    assert_eq!(ctx.set_field_value("foo", LhsValue::Int(1)), Ok(()));
    assert_eq!(
        ctx.set_field_value("foo", LhsValue::Bool(true)),
        Err(FieldValueTypeMismatchError {
            field_type: Type::Int,
            value_type: Type::Bool
        })
    );

    let foo = scheme.get_field_index("foo").unwrap();
    assert_eq!(ctx.get_field_value_unchecked(foo), &LhsValue::Int(1));
}

#[test]
fn second_set_replaces_first() {
    let scheme = scheme_foo_int();
    let mut ctx = ExecutionContext::new(&scheme);

    assert_eq!(ctx.set_field_value("foo", LhsValue::Int(1)), Ok(()));
    assert_eq!(ctx.set_field_value("foo", LhsValue::Int(2)), Ok(()));

    let foo = scheme.get_field_index("foo").unwrap();
    assert_eq!(ctx.get_field_value_unchecked(foo), &LhsValue::Int(2));
}

#[test]
fn foo_mismatch_then_correct_set() {
    let scheme = scheme_foo_int();
    let mut ctx = ExecutionContext::new(&scheme);

    assert_eq!(
        ctx.set_field_value("foo", LhsValue::Bool(false)),
        Err(FieldValueTypeMismatchError {
            field_type: Type::Int,
            value_type: Type::Bool
        })
    );

    let foo = scheme.get_field_index("foo").unwrap();
    assert!(!ctx.is_field_value_set(foo));

    assert_eq!(ctx.set_field_value("foo", LhsValue::Int(42)), Ok(()));
    assert_eq!(ctx.get_field_value_unchecked(foo), &LhsValue::Int(42));
}

#[test]
fn only_set_field_is_readable() {
    let mut scheme = Scheme::new();
    assert!(scheme.add_field("a".to_owned(), Type::Int));
    assert!(scheme.add_field("b".to_owned(), Type::Bool));

    let mut ctx = ExecutionContext::new(&scheme);
    assert_eq!(ctx.set_field_value("a", LhsValue::Int(10)), Ok(()));

    let a = scheme.get_field_index("a").unwrap();
    let b = scheme.get_field_index("b").unwrap();

    assert_eq!(ctx.get_field_value_unchecked(a), &LhsValue::Int(10));
    // Reading `b` here would be a fatal pipeline fault: its slot is empty.
    assert!(!ctx.is_field_value_set(b));
}

#[test]
fn context_exposes_its_scheme() {
    let mut scheme = Scheme::new();
    assert!(scheme.add_field("a".to_owned(), Type::Int));
    assert!(scheme.add_field("b".to_owned(), Type::Bool));

    let ctx = ExecutionContext::new(&scheme);
    let exposed = ctx.scheme();

    assert_eq!(exposed.get_field_count(), 2);
    let b = exposed.get_field_index("b").unwrap();
    assert_eq!(b.index(), 1);
    assert_eq!(b.get_type(), Type::Bool);
}

#[test]
fn duplicate_field_name_is_rejected() {
    let mut scheme = Scheme::new();
    assert!(scheme.add_field("foo".to_owned(), Type::Int));
    assert!(!scheme.add_field("foo".to_owned(), Type::Bool));

    assert_eq!(scheme.get_field_count(), 1);
    let foo = scheme.get_field_index("foo").unwrap();
    assert_eq!(foo.get_type(), Type::Int);
}

#[test]
fn unknown_name_resolves_to_none() {
    let scheme = scheme_foo_int();
    assert!(scheme.get_field_index("bar").is_none());
    assert!(scheme.get_field_index("").is_none());
}

#[test]
fn field_handle_reports_declaration() {
    let mut scheme = Scheme::new();
    assert!(scheme.add_field("first".to_owned(), Type::Bytes));
    assert!(scheme.add_field("second".to_owned(), Type::Int));

    let first = scheme.get_field_index("first").unwrap();
    assert_eq!(first.index(), 0);
    assert_eq!(first.name(), "first");
    assert_eq!(first.get_type(), Type::Bytes);

    let second = scheme.get_field_index("second").unwrap();
    assert_eq!(second.index(), 1);
    assert_eq!(second.name(), "second");
    assert_eq!(second.get_type(), Type::Int);

    assert_eq!(second.scheme().get_field_count(), 2);
}

#[test]
fn value_reports_its_type() {
    assert_eq!(LhsValue::Bool(true).get_type(), Type::Bool);
    assert_eq!(LhsValue::Int(0).get_type(), Type::Int);
    assert_eq!(LhsValue::Bytes(vec![]).get_type(), Type::Bytes);
}
