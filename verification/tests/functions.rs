use plan_rewrite::functions::AlwaysNullFunction;
use plan_rewrite::functions::ArrayColumn;
use plan_rewrite::functions::ArrayLengthFunction;
use plan_rewrite::functions::ColumnRef;
use plan_rewrite::functions::DataTypeImpl;
use plan_rewrite::functions::ErrorCode;
use plan_rewrite::functions::FunctionContext;
use plan_rewrite::functions::Monotonicity;

#[test]
fn always_null_returns_null_column() {
    let f = AlwaysNullFunction;
    assert_eq!(f.name(), "null");
    assert!(matches!(f.return_type(), DataTypeImpl::Null));
    let out = f.eval(FunctionContext::default(), &vec![], 4).unwrap();
    assert!(matches!(out, ColumnRef::Null { len: 4 }));
}

#[test]
fn array_length_accepts_array_argument() {
    let f = ArrayLengthFunction::try_create("array_length", &vec![DataTypeImpl::Array]).unwrap();
    assert_eq!(f.name().as_str(), "array_length");
    assert!(matches!(f.return_type(), DataTypeImpl::UInt64));
}

#[test]
fn array_length_rejects_non_array_argument() {
    let err = ArrayLengthFunction::try_create("array_length", &vec![DataTypeImpl::UInt64])
        .unwrap_err();
    match err {
        ErrorCode::IllegalDataType(message) => {
            assert_eq!(
                message.as_str(),
                "Invalid argument types for function 'ARRAY_LENGTH': (UInt64)"
            );
        }
        other => panic!("unexpected error: {:?}", other),
    }
}

#[test]
fn array_length_counts_elements_per_row() {
    let f = ArrayLengthFunction::try_create("array_length", &vec![DataTypeImpl::Array]).unwrap();
    let column = ColumnRef::Array(ArrayColumn { sizes: vec![0, 3, 2] });
    let out = f.eval(FunctionContext::default(), &vec![column], 3).unwrap();
    match out {
        ColumnRef::UInt64(v) => assert_eq!(v, vec![0, 3, 2]),
        _ => panic!("expected a UInt64 column"),
    }
}

#[test]
fn array_length_eval_rejects_non_array_column() {
    let f = ArrayLengthFunction::try_create("array_length", &vec![DataTypeImpl::Array]).unwrap();
    let column = ColumnRef::UInt64(vec![1, 2]);
    let err = f.eval(FunctionContext::default(), &vec![column], 2).unwrap_err();
    match err {
        ErrorCode::BadDataValueType(message) => {
            assert_eq!(message.as_str(), "Expected an array column as the first argument");
        }
        other => panic!("unexpected error: {:?}", other),
    }
}

#[test]
fn default_context_is_utc() {
    assert_eq!(FunctionContext::default().tz.as_str(), "UTC");
}

#[test]
fn default_monotonicity_is_positive_and_not_monotonic() {
    let m = Monotonicity::default();
    assert!(!m.is_monotonic);
    assert!(m.is_positive);
    assert!(!m.is_constant);
}
