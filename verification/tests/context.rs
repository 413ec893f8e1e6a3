use clickhouse_datafusion::context::{alias_registrations, ClickHouseContextExtension};
use clickhouse_datafusion::dictget::{DictGet, DictionarySchemaMap, ReturnFieldArgs, ScalarArgument};
use clickhouse_datafusion::names::{NameMap, NameSet};
use datafusion::arrow::datatypes::DataType;
use std::sync::Arc;

fn create_test_extension() -> ClickHouseContextExtension {
    let dictionary_schema = Arc::new(NameMap::new());
    ClickHouseContextExtension::new(dictionary_schema)
}

#[test]
fn test_new_extension() {
    let dictionary_schema: Arc<DictionarySchemaMap> = Arc::new(NameMap::new());
    let extension = ClickHouseContextExtension::new(dictionary_schema.clone());
    assert!(Arc::ptr_eq(extension.dictionary_schema(), &dictionary_schema));
}

#[test]
fn test_get_udf_aliases() {
    let extension = create_test_extension();
    let aliases = extension.get_udf_aliases();

    assert_eq!(aliases.len(), 2);
    assert!(aliases.contains_key("array_agg"));
    assert!(aliases.contains_key("to_date"));

    let array_agg_aliases = aliases.get("array_agg").unwrap();
    assert!(array_agg_aliases.contains("groupArray"));

    let to_date_aliases = aliases.get("to_date").unwrap();
    assert!(to_date_aliases.contains("toDate"));
}

#[test]
fn test_get_udaf_aliases() {
    let extension = create_test_extension();
    let aliases = extension.get_udaf_aliases();

    assert_eq!(aliases.len(), 1);
    assert!(aliases.contains_key("argMax"));

    let argmax_aliases = aliases.get("argMax").unwrap();
    assert!(argmax_aliases.contains("argmax"));
}

#[test]
fn test_clone() {
    let extension = create_test_extension();
    let cloned = extension.clone();

    assert!(Arc::ptr_eq(extension.dictionary_schema(), cloned.dictionary_schema()));
}

#[test]
fn aliases_are_registered_only_for_registered_originals() {
    let extension = create_test_extension();
    let aliases = extension.get_udf_aliases();
    let mut registered = NameSet::new();
    let _ = registered.insert("to_date".to_string());
    let _ = registered.insert("abs".to_string());

    let pairs = alias_registrations(&aliases, &registered);
    assert_eq!(pairs, vec![("to_date".to_string(), "toDate".to_string())]);

    let mut both = NameSet::new();
    let _ = both.insert("array_agg".to_string());
    let _ = both.insert("to_date".to_string());
    let pairs = alias_registrations(&aliases, &both);
    assert_eq!(
        pairs,
        vec![
            ("array_agg".to_string(), "groupArray".to_string()),
            ("to_date".to_string(), "toDate".to_string()),
        ]
    );

    assert!(alias_registrations(&aliases, &NameSet::new()).is_empty());
}

#[test]
fn every_alias_of_a_registered_original_is_listed() {
    let mut aliases = NameMap::new();
    let mut set = NameSet::new();
    let _ = set.insert("a1".to_string());
    let _ = set.insert("a2".to_string());
    let _ = aliases.insert("f".to_string(), set);
    let mut registered = NameSet::new();
    let _ = registered.insert("f".to_string());
    let pairs = alias_registrations(&aliases, &registered);
    assert_eq!(
        pairs,
        vec![("f".to_string(), "a1".to_string()), ("f".to_string(), "a2".to_string())]
    );
}

#[test]
fn extension_dict_get_reads_its_schema() {
    let mut columns = NameMap::new();
    let _ = columns.insert("v".to_string(), DataType::UInt8);
    let mut schema = NameMap::new();
    let _ = schema.insert("d".to_string(), columns);
    let extension = ClickHouseContextExtension::new(Arc::new(schema));
    let args = ReturnFieldArgs {
        arg_types: vec![DataType::Utf8, DataType::Utf8, DataType::UInt64],
        scalar_arguments: vec![
            Some(ScalarArgument::Utf8("d".to_string())),
            Some(ScalarArgument::Utf8("v".to_string())),
            None,
        ],
    };
    let dict_get = DictGet::new(Arc::clone(extension.dictionary_schema()));
    assert_eq!(dict_get.data_type_from_args(&args).unwrap(), DataType::UInt8);
}
