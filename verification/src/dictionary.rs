//! ClickHouse dictionary layouts and metadata.

use crate::arrow::{field_data_type, field_is_nullable, field_name, new_field, new_schema, schema_fields};
use crate::names::NameMap;
use datafusion::arrow::datatypes::{DataType, Field, Schema};
use std::sync::Arc;
use vstd::prelude::*;

verus! {

/// Dictionary layout types supported by ClickHouse.
#[derive(Debug, Clone)]
pub enum DictionaryLayout {
    /// Hashed dictionary with a single primary key column.
    Hashed { primary_key: String },
    /// Range hashed dictionary with time-based lookups.
    Range { primary_key: String, start_time: String, end_time: String },
    /// Flat dictionary, stored in an array.
    Flat { primary_key: String },
    /// Complex key hashed dictionary.
    ComplexKeyHashed { key_columns: Vec<String> },
}

impl DictionaryLayout {
    /// The names of the key columns of this layout, in order.
    pub open spec fn spec_key_columns(&self) -> Seq<Seq<char>> {
        match self {
            DictionaryLayout::Hashed { primary_key } => seq![primary_key@],
            DictionaryLayout::Range { primary_key, .. } => seq![primary_key@],
            DictionaryLayout::Flat { primary_key } => seq![primary_key@],
            DictionaryLayout::ComplexKeyHashed { key_columns } =>
                key_columns@.map_values(|k: String| k@),
        }
    }

    /// Get the primary key column name(s) for this layout.
    pub fn key_columns(&self) -> (keys: Vec<&str>)
        ensures
            keys@.len() == self.spec_key_columns().len(),
            forall|i: int| 0 <= i < keys@.len() ==> #[trigger] keys@[i]@ == self.spec_key_columns()[i],
            self matches DictionaryLayout::ComplexKeyHashed { key_columns } ==> keys@.len() == key_columns@.len()
                && forall|i: int| 0 <= i < keys@.len() ==> #[trigger] keys@[i]@ == key_columns@[i]@,
            self matches DictionaryLayout::Hashed { primary_key } ==> keys@.len() == 1 && keys@[0]@ == primary_key@,
            self matches DictionaryLayout::Flat { primary_key } ==> keys@.len() == 1 && keys@[0]@ == primary_key@,
            self matches DictionaryLayout::Range { primary_key, .. } ==> keys@.len() == 1 && keys@[0]@
                == primary_key@,
    {
        match self {
            DictionaryLayout::Hashed { primary_key }
            | DictionaryLayout::Flat { primary_key }
            | DictionaryLayout::Range { primary_key, .. } => {
                let mut keys: Vec<&str> = Vec::new();
                keys.push(primary_key.as_str());
                keys
            },
            DictionaryLayout::ComplexKeyHashed { key_columns } => {
                let mut keys: Vec<&str> = Vec::new();
                let n = key_columns.len();
                for i in 0..n
                    invariant
                        n == key_columns.len(),
                        keys@.len() == i,
                        forall|j: int| 0 <= j < i ==> #[trigger] keys@[j]@ == key_columns@[j]@,
                {
                    keys.push(key_columns[i].as_str());
                }
                keys
            },
        }
    }
}

/// `f` is a nullable field named `name`, of type `data_type`.
pub open spec fn describes_column(f: Field, name: Seq<char>, data_type: DataType) -> bool {
    &&& field_name(f) == name
    &&& field_data_type(f) == data_type
    &&& field_is_nullable(f)
}

/// `fields` describe the columns of `columns`, one nullable field per column,
/// in the order of the column names.
pub open spec fn describes_columns(fields: Seq<Field>, columns: NameMap<DataType>) -> bool {
    &&& fields.len() == columns.key_seq().len()
    &&& forall|i: int|
        0 <= i < fields.len() ==> #[trigger] describes_column(
            fields[i],
            columns.key_seq()[i],
            columns@[columns.key_seq()[i]],
        )
}

/// Each column of `columns` has a field of its name among `fields`, and each
/// field is named after a column.
pub open spec fn names_each_column(fields: Seq<Field>, columns: Map<Seq<char>, DataType>) -> bool {
    forall|k: Seq<char>|
        #[trigger] columns.contains_key(k) <==> exists|i: int| 0 <= i < fields.len() && #[trigger] field_name(fields[i]) == k
}

/// Metadata describing a ClickHouse dictionary.
#[derive(Debug, Clone)]
pub struct DictionaryMetadata {
    /// The name of the dictionary.
    pub name: String,
    /// Column names mapped to their data types.
    pub columns: NameMap<DataType>,
    /// The dictionary layout type.
    pub layout: DictionaryLayout,
}

impl DictionaryMetadata {
    /// Create a new dictionary metadata instance.
    pub fn new(name: String, columns: NameMap<DataType>, layout: DictionaryLayout) -> (m: Self)
        ensures
            m.name == name,
            m.columns == columns,
            m.layout == layout,
    {
        DictionaryMetadata { name, columns, layout }
    }

    /// Get the schema for this dictionary: one nullable field per column.
    pub fn schema(&self) -> (s: Arc<Schema>)
        ensures
            describes_columns(schema_fields(*s), self.columns),
            names_each_column(schema_fields(*s), self.columns@),
    {
        let n: usize = self.columns.len();
        let mut fields: Vec<Field> = Vec::new();
        let mut i: usize = 0;
        while i < n
            invariant
                n == self.columns.key_seq().len(),
                i <= n,
                fields@.len() == i,
                forall|j: int|
                    0 <= j < i ==> #[trigger] describes_column(
                        fields@[j],
                        self.columns.key_seq()[j],
                        self.columns@[self.columns.key_seq()[j]],
                    ),
            decreases n - i,
        {
            let (name, data_type) = self.columns.entry_at(i);
            let field = new_field(name.as_str(), data_type.clone(), true);
            let ghost before = fields@;
            fields.push(field);
            proof {
                assert forall|j: int| 0 <= j < i + 1 implies #[trigger] describes_column(
                    fields@[j],
                    self.columns.key_seq()[j],
                    self.columns@[self.columns.key_seq()[j]],
                ) by {
                    if j < i {
                        assert(fields@[j] == before[j]);
                    }
                }
            }
            i = i + 1;
        }
        let column_count: usize = self.columns.len();
        let schema = new_schema(fields);
        proof {
            let fs = schema_fields(schema);
            assert(fs.len() == column_count);
            assert forall|k: Seq<char>| #[trigger] self.columns@.contains_key(k)
                <==> exists|i: int| 0 <= i < fs.len() && #[trigger] field_name(fs[i]) == k by {
                if self.columns@.contains_key(k) {
                    let i = choose|i: int| 0 <= i < self.columns.key_seq().len() && self.columns.key_seq()[i] == k;
                    assert(describes_column(fs[i], self.columns.key_seq()[i], self.columns@[self.columns.key_seq()[i]]));
                }
                if exists|i: int| 0 <= i < fs.len() && #[trigger] field_name(fs[i]) == k {
                    let i = choose|i: int| 0 <= i < fs.len() && #[trigger] field_name(fs[i]) == k;
                    assert(describes_column(fs[i], self.columns.key_seq()[i], self.columns@[self.columns.key_seq()[i]]));
                    assert(self.columns.key_seq().contains(k));
                }
            }
        }
        Arc::new(schema)
    }
}

/// The leading text of the error that scanning a dictionary table gives.
pub open spec fn scan_error_text(dictionary: Seq<char>) -> Seq<char> {
    "Dictionary '"@ + dictionary
        + "' is a ClickHouse dictionary and cannot be scanned directly in DataFusion. Use dictGet() function for lookups."@
}

/// A placeholder table for a dictionary: it gives the dictionary's schema,
/// but the dictionary cannot be scanned (lookups go through `dictGet`).
#[derive(Debug)]
pub struct DictionaryTableProvider {
    schema: Arc<Schema>,
    metadata: Arc<DictionaryMetadata>,
}

impl DictionaryTableProvider {
    /// The dictionary this table stands for.
    pub closed spec fn spec_metadata(&self) -> DictionaryMetadata {
        *self.metadata
    }

    /// The schema of this table.
    pub closed spec fn spec_schema(&self) -> Schema {
        *self.schema
    }

    /// A table for the given dictionary, with the dictionary's schema.
    pub fn new(metadata: Arc<DictionaryMetadata>) -> (t: Self)
        ensures
            t.spec_metadata() == *metadata,
            describes_columns(schema_fields(t.spec_schema()), metadata.columns),
            names_each_column(schema_fields(t.spec_schema()), metadata.columns@),
    {
        let schema = metadata.schema();
        DictionaryTableProvider { schema, metadata }
    }

    /// The schema of this table.
    pub fn schema(&self) -> (s: Arc<Schema>)
        ensures
            *s == self.spec_schema(),
    {
        Arc::clone(&self.schema)
    }

    /// The message of the error that a scan of this table gives.
    pub fn scan_error_message(&self) -> (msg: String)
        ensures
            msg@ == scan_error_text(self.spec_metadata().name@),
    {
        let mut msg = "Dictionary '".to_owned();
        msg.append(self.metadata.name.as_str());
        msg.append("' is a ClickHouse dictionary and cannot be scanned directly in DataFusion. Use dictGet() function for lookups.");
        msg
    }
}

/// Schema provider that manages the dictionary tables of a schema.
#[derive(Debug)]
pub struct DictionarySchemaProvider {
    dictionaries: NameMap<Arc<DictionaryMetadata>>,
}

impl View for DictionarySchemaProvider {
    type V = Map<Seq<char>, Arc<DictionaryMetadata>>;

    closed spec fn view(&self) -> Map<Seq<char>, Arc<DictionaryMetadata>> {
        self.dictionaries@
    }
}

impl DictionarySchemaProvider {
    /// Create a new dictionary schema provider holding the given tables.
    pub fn new(dictionaries: NameMap<Arc<DictionaryMetadata>>) -> (p: Self)
        ensures
            p@ == dictionaries@,
    {
        DictionarySchemaProvider { dictionaries }
    }

    /// Add a dictionary to this schema, as a table named after the dictionary;
    /// a table of that name is replaced.
    pub fn add_dictionary(&mut self, metadata: Arc<DictionaryMetadata>)
        ensures
            final(self)@ == old(self)@.insert(metadata.name@, metadata),
    {
        let name = metadata.name.clone();
        let _ = self.dictionaries.insert(name, metadata);
    }

    /// The names of the tables of this schema, each once.
    pub fn table_names(&self) -> (names: Vec<String>)
        ensures
            names@.map_values(|s: String| s@).no_duplicates(),
            names@.map_values(|s: String| s@).to_set() == self@.dom(),
            names@.len() == self@.len(),
            forall|name: Seq<char>|
                #[trigger] self@.contains_key(name) <==> exists|i: int| 0 <= i < names@.len() && #[trigger] names@[i]@ == name,
    {
        let names = self.dictionaries.keys();
        assert(names@.len() == names@.map_values(|s: String| s@).len());
        assert forall|name: Seq<char>| #[trigger] self@.contains_key(name)
            <==> exists|i: int| 0 <= i < names@.len() && #[trigger] names@[i]@ == name by {
            if self@.contains_key(name) {
                assert(self.dictionaries.key_seq().contains(name));
                let i = choose|i: int| 0 <= i < self.dictionaries.key_seq().len() && self.dictionaries.key_seq()[i] == name;
                assert(names@[i]@ == name);
            }
            if exists|i: int| 0 <= i < names@.len() && #[trigger] names@[i]@ == name {
                let i = choose|i: int| 0 <= i < names@.len() && #[trigger] names@[i]@ == name;
                assert(self.dictionaries.key_seq()[i] == name);
            }
        }
        names
    }

    /// The table of the given name, if there is one.
    pub fn table(&self, name: &str) -> (t: Option<DictionaryTableProvider>)
        ensures
            t is Some <==> self@.contains_key(name@),
            t matches Some(table) ==> {
                &&& table.spec_metadata() == *self@[name@]
                &&& describes_columns(schema_fields(table.spec_schema()), self@[name@].columns)
            },
    {
        match self.dictionaries.get(name) {
            Some(metadata) => Some(DictionaryTableProvider::new(Arc::clone(metadata))),
            None => None,
        }
    }

    /// Whether the schema has a table of the given name.
    pub fn table_exist(&self, name: &str) -> (b: bool)
        ensures
            b == self@.contains_key(name@),
    {
        self.dictionaries.contains_key(name)
    }
}

} // verus!
