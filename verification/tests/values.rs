use aqueryon::query_builder::{Limit, Literal, SqlInt, SqlString, SqlUint, TableName, Value, AnyDatabase};

#[test]
fn values_are_made_from_plain_values() {
    assert_eq!(Value::from("abc"), Value::String("abc".to_string()));
    assert_eq!(Value::from(-3i64), Value::Int(-3));
    assert_eq!(Value::from(3u64), Value::Uint(3));
    assert_eq!(Value::from(Some(3u64)), Value::Uint(3));
    assert_eq!(Value::from(Some("x")), Value::String("x".to_string()));
    assert_eq!(Value::from(None::<i64>), Value::Null);
    assert_eq!(Value::from(Some(Some(1i64))), Value::Int(1));
    assert_eq!(Value::from(Some(None::<i64>)), Value::Null);
}

#[test]
fn values_are_made_from_typed_literals() {
    assert_eq!(
        Value::from(SqlString::new("abc")),
        Value::String("abc".to_string())
    );
    assert_eq!(Value::from(SqlString::from("abc")), Value::String("abc".to_string()));
    assert_eq!(SqlString::from("abc".to_string()), SqlString::new("abc"));
    assert_eq!(Value::from(SqlInt::new(-3)), Value::Int(-3));
    assert_eq!(Value::from(SqlUint::new(3)), Value::Uint(3));
    assert_eq!(Value::from(Some(SqlInt::new(-3))), Value::Int(-3));
    assert_eq!(SqlString::new("abc").to_value(), Value::String("abc".to_string()));
    assert_eq!(SqlInt::new(-3).to_value(), Value::Int(-3));
    assert_eq!(SqlUint::new(3).to_value(), Value::Uint(3));
    assert_eq!(Value::Null.to_value(), Value::Null);
    assert_eq!(Value::Uint(3).clone(), Value::Uint(3));
    assert_eq!(
        Value::String("s".to_string()).clone(),
        Value::String("s".to_string())
    );
}

#[test]
fn integer_literals_are_made_from_numbers_that_fit() {
    assert_eq!(SqlInt::from(5i32), SqlInt::new(5));
    assert_eq!(SqlInt::from(-5i8), SqlInt::new(-5));
    assert_eq!(SqlInt::from(u32::MAX), SqlInt::new(4294967295));
    assert_eq!(SqlUint::from(5u8), SqlUint::new(5));
    assert_eq!(SqlUint::from(u32::MAX), SqlUint::new(4294967295));
    assert_eq!(SqlInt::try_from(300u64), Ok(SqlInt::new(300)));
    assert_eq!(SqlInt::try_from(i64::MAX as u64), Ok(SqlInt::new(i64::MAX)));
    assert!(SqlInt::try_from(i64::MAX as u64 + 1).is_err());
    assert!(SqlInt::try_from(u64::MAX).is_err());
    assert!(SqlInt::try_from(i128::MIN).is_err());
    assert_eq!(SqlUint::try_from(300i64), Ok(SqlUint::new(300)));
    assert_eq!(SqlUint::try_from(0i8), Ok(SqlUint::new(0)));
    assert!(SqlUint::try_from(-1i64).is_err());
    assert!(SqlUint::try_from(u128::MAX).is_err());
    assert_eq!(SqlInt::try_from(5u64), Ok(SqlInt::new(5)));
    assert_eq!(SqlInt::from_conversion(Ok::<i64, ()>(-9)), Ok(SqlInt::new(-9)));
    assert_eq!(SqlInt::from_conversion(Err("too large")), Err("too large"));
    assert_eq!(SqlUint::from_conversion(Ok::<u64, ()>(9)), Ok(SqlUint::new(9)));
    assert_eq!(SqlUint::from_conversion(Err(3u8)), Err(3u8));
}

#[test]
fn limits_are_made_from_counts() {
    assert_eq!(
        Limit::from(10),
        Limit {
            offset: None,
            row_count: 10
        }
    );
    assert_eq!(
        Limit::from((5, 10)),
        Limit {
            offset: Some(5),
            row_count: 10
        }
    );
}

#[test]
fn tables_are_made_from_names() {
    let table: TableName<'_, AnyDatabase> = TableName::from("users");
    assert_eq!(table, TableName::new("users"));
    assert_eq!(table.name, "users");
    assert_eq!(table.clone(), table);
}
