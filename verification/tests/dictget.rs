use clickhouse_datafusion::dictget::{DictGet, DictGetError, DictionarySchemaMap, ReturnFieldArgs, ScalarArgument};
use clickhouse_datafusion::names::NameMap;
use datafusion::arrow::datatypes::{DataType, TimeUnit};
use datafusion::logical_expr::{Signature, TypeSignature, Volatility};
use std::sync::Arc;

fn create_test_schema() -> Arc<DictionarySchemaMap> {
    let mut schema_map = NameMap::new();

    let mut dict_columns = NameMap::new();
    let _ = dict_columns.insert("name".to_string(), DataType::Utf8);
    let _ = dict_columns.insert("age".to_string(), DataType::Int32);
    let _ = dict_columns.insert("score".to_string(), DataType::Float64);
    let _ = dict_columns.insert("active".to_string(), DataType::Boolean);

    let _ = schema_map.insert("test_dict".to_string(), dict_columns);

    Arc::new(schema_map)
}

fn utf8(s: &str) -> Option<ScalarArgument> {
    Some(ScalarArgument::Utf8(s.to_string()))
}

fn string_args(values: &[&str]) -> ReturnFieldArgs {
    ReturnFieldArgs {
        arg_types: values.iter().map(|_| DataType::Utf8).collect(),
        scalar_arguments: values.iter().map(|v| utf8(v)).collect(),
    }
}

#[test]
fn test_dict_get_creation() {
    let schema = create_test_schema();
    let dict_get = DictGet::new(schema.clone());

    assert_eq!(dict_get.name(), "dictGet");
}

#[test]
fn test_data_type_from_args_utf8() {
    let dict_get = DictGet::new(create_test_schema());
    let args = string_args(&["test_dict", "name", "key123"]);

    let result = dict_get.data_type_from_args(&args);
    assert!(result.is_ok());
    assert_eq!(result.unwrap(), DataType::Utf8);
}

#[test]
fn test_data_type_from_args_int32() {
    let dict_get = DictGet::new(create_test_schema());
    let args = string_args(&["test_dict", "age", "key123"]);

    let result = dict_get.data_type_from_args(&args);
    assert!(result.is_ok());
    assert_eq!(result.unwrap(), DataType::Int32);
}

#[test]
fn test_data_type_from_args_dictionary_not_found() {
    let dict_get = DictGet::new(create_test_schema());
    let args = string_args(&["nonexistent_dict", "name", "key123"]);

    let result = dict_get.data_type_from_args(&args);
    assert!(result.is_err());
    assert!(result.unwrap_err().message().contains("Dictionary 'nonexistent_dict' not found"));
}

#[test]
fn test_data_type_from_args_column_not_found() {
    let dict_get = DictGet::new(create_test_schema());
    let args = string_args(&["test_dict", "nonexistent_column", "key123"]);

    let result = dict_get.data_type_from_args(&args);
    assert!(result.is_err());
    assert!(result.unwrap_err().message().contains("Column 'nonexistent_column' not found"));
}

#[test]
fn test_data_type_from_args_invalid_arg_count() {
    let dict_get = DictGet::new(create_test_schema());
    let args = string_args(&["test_dict", "name"]);

    let result = dict_get.data_type_from_args(&args);
    assert!(result.is_err());
    assert!(result.unwrap_err().message().contains("dictGet needs 3 or 4 arguments"));
}

#[test]
fn test_return_field_from_args() {
    let dict_get = DictGet::new(create_test_schema());
    let args = string_args(&["test_dict", "score", "key123"]);

    let result = dict_get.return_field_from_args(&args);
    assert!(result.is_ok());
    let field = result.unwrap();
    assert_eq!(field.name(), "dictGet");
    assert_eq!(field.data_type(), &DataType::Float64);
    assert!(field.is_nullable());
}

#[test]
fn four_arguments_with_a_time_are_accepted() {
    let dict_get = DictGet::new(create_test_schema());
    let args = ReturnFieldArgs {
        arg_types: vec![
            DataType::Utf8,
            DataType::Utf8,
            DataType::Utf8,
            DataType::Timestamp(TimeUnit::Second, None),
        ],
        scalar_arguments: vec![utf8("test_dict"), utf8("active"), None, None],
    };
    assert_eq!(dict_get.data_type_from_args(&args).unwrap(), DataType::Boolean);
}

#[test]
fn five_arguments_are_refused_with_the_count() {
    let dict_get = DictGet::new(create_test_schema());
    let args = string_args(&["test_dict", "name", "k", "t", "x"]);
    let err = dict_get.data_type_from_args(&args).unwrap_err();
    assert!(matches!(err, DictGetError::ArgumentCount(5)));
    assert_eq!(err.message(), "dictGet needs 3 or 4 arguments, 5 provided");
}

#[test]
fn argument_count_message_renders_large_counts() {
    assert_eq!(DictGetError::ArgumentCount(120).message(), "dictGet needs 3 or 4 arguments, 120 provided");
    assert_eq!(DictGetError::ArgumentCount(0).message(), "dictGet needs 3 or 4 arguments, 0 provided");
}

#[test]
fn non_constant_dictionary_name_is_refused() {
    let dict_get = DictGet::new(create_test_schema());
    let args = ReturnFieldArgs {
        arg_types: vec![DataType::Utf8, DataType::Utf8, DataType::Utf8],
        scalar_arguments: vec![None, utf8("name"), utf8("k")],
    };
    let err = dict_get.data_type_from_args(&args).unwrap_err();
    assert!(matches!(err, DictGetError::FirstArgumentNotString(None)));
    assert_eq!(
        err.message(),
        "dictGet requires its first argument to be a constant string, got constant None"
    );
}

#[test]
fn missing_argument_values_are_refused() {
    let dict_get = DictGet::new(create_test_schema());
    let args = ReturnFieldArgs {
        arg_types: vec![DataType::Int64, DataType::Utf8, DataType::Utf8],
        scalar_arguments: vec![],
    };
    let err = dict_get.data_type_from_args(&args).unwrap_err();
    assert!(matches!(err, DictGetError::FirstArgumentAbsent(DataType::Int64)));
    assert_eq!(
        err.message(),
        "dictGet requires its first argument to be a constant string, got non-constant Int64"
    );

    let args = ReturnFieldArgs {
        arg_types: vec![DataType::Utf8, DataType::Int32, DataType::Utf8],
        scalar_arguments: vec![utf8("test_dict")],
    };
    let err = dict_get.data_type_from_args(&args).unwrap_err();
    assert!(matches!(err, DictGetError::SecondArgumentAbsent(DataType::Int32)));
    assert!(err.message().starts_with("dictGet requires its second argument to be a constant string, got non-constant"));
}

#[test]
fn non_string_column_name_is_refused() {
    let dict_get = DictGet::new(create_test_schema());
    let args = ReturnFieldArgs {
        arg_types: vec![DataType::Utf8, DataType::Int64, DataType::Utf8],
        scalar_arguments: vec![utf8("test_dict"), Some(ScalarArgument::Other("Int64(7)".to_string())), utf8("k")],
    };
    let err = dict_get.data_type_from_args(&args).unwrap_err();
    assert_eq!(
        err.message(),
        "dictGet requires its second argument to be a constant string, got constant Some(Int64(7))"
    );
    assert!(dict_get.return_field_from_args(&args).is_err());
}

#[test]
fn argument_count_is_checked_before_the_arguments() {
    let dict_get = DictGet::new(create_test_schema());
    let args = ReturnFieldArgs { arg_types: vec![DataType::Int8], scalar_arguments: vec![None] };
    assert!(matches!(dict_get.data_type_from_args(&args), Err(DictGetError::ArgumentCount(1))));
}

#[test]
fn column_not_found_message_names_both() {
    let err = DictGetError::ColumnNotFound { column: "c".to_string(), dictionary: "d".to_string() };
    assert_eq!(err.message(), "Column 'c' not found in dictionary 'd'");
    let err = DictGetError::DictionaryNotFound("d".to_string());
    assert_eq!(err.message(), "Dictionary 'd' not found in schema map");
}

#[test]
fn dict_get_takes_three_or_four_arguments_and_is_immutable() {
    let dict_get = DictGet::new(create_test_schema());
    let expected = Signature::one_of(
        vec![
            TypeSignature::Exact(vec![DataType::Utf8, DataType::Utf8, DataType::Utf8]),
            TypeSignature::Exact(vec![
                DataType::Utf8,
                DataType::Utf8,
                DataType::Utf8,
                DataType::Timestamp(TimeUnit::Second, None),
            ]),
        ],
        Volatility::Immutable,
    );
    assert_eq!(dict_get.signature(), &expected);
}

#[test]
fn absent_argument_messages_name_the_type() {
    assert_eq!(
        DictGetError::FirstArgumentAbsent(DataType::Int32).message(),
        "dictGet requires its first argument to be a constant string, got non-constant Int32"
    );
    assert_eq!(
        DictGetError::SecondArgumentAbsent(DataType::Utf8).message(),
        "dictGet requires its second argument to be a constant string, got non-constant Utf8"
    );
}
