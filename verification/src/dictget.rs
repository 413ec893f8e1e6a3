//! `dictGet`: the ClickHouse dictionary lookup function, and how its return
//! type is found from its arguments.
//!
//! `dictGet(dictionary, column, key)` and `dictGet(dictionary, column, key, time)`
//! take the dictionary and the column as constant strings; the function returns
//! the type of that column of that dictionary, as the dictionary schema map
//! records it.

use crate::arrow::{data_type_debug, data_type_text, field_data_type, field_is_nullable, field_name, new_field};
use crate::names::NameMap;
use crate::signature::{exact_signatures, one_of_exact, ArgumentType, FunctionVolatility};
use crate::text::{decimal, decimal_string};
use datafusion::arrow::datatypes::{DataType, Field};
use datafusion::logical_expr::Signature;
use std::sync::Arc;
use vstd::prelude::*;

verus! {

/// Dictionary schema map: dictionary name, then column name, to the column's data type.
pub type DictionarySchemaMap = NameMap<NameMap<DataType>>;

/// The value of a constant argument of a function call.
#[derive(Debug, Clone)]
pub enum ScalarArgument {
    /// A (non-null) string.
    Utf8(String),
    /// Any other constant, with its rendering for messages.
    Other(String),
}

/// A constant argument, with its strings seen as character sequences.
pub enum ScalarArgumentView {
    Utf8(Seq<char>),
    Other(Seq<char>),
}

impl View for ScalarArgument {
    type V = ScalarArgumentView;

    open spec fn view(&self) -> ScalarArgumentView {
        match self {
            ScalarArgument::Utf8(s) => ScalarArgumentView::Utf8(s@),
            ScalarArgument::Other(s) => ScalarArgumentView::Other(s@),
        }
    }
}

/// The view of an argument slot: `None` when the argument is not a constant.
pub open spec fn slot_view(slot: Option<ScalarArgument>) -> Option<ScalarArgumentView> {
    match slot {
        Some(a) => Some(a@),
        None => None,
    }
}

/// What the return type of a call is decided from: the types of the
/// arguments, and the value of each argument that is a constant.
pub struct ReturnFieldArgs {
    /// The data type of each argument.
    pub arg_types: Vec<DataType>,
    /// For each argument, its value when it is a constant, else `None`.
    pub scalar_arguments: Vec<Option<ScalarArgument>>,
}

impl ReturnFieldArgs {
    /// The argument slots, viewed.
    pub open spec fn slots(&self) -> Seq<Option<ScalarArgumentView>> {
        self.scalar_arguments@.map_values(|s: Option<ScalarArgument>| slot_view(s))
    }
}

/// Why `dictGet`'s return type could not be found.
#[derive(Debug, Clone)]
pub enum DictGetError {
    /// The call has neither 3 nor 4 arguments; holds the count.
    ArgumentCount(usize),
    /// No value slot was given for the first argument; holds its type.
    FirstArgumentAbsent(DataType),
    /// The first argument is not a constant string; holds its slot.
    FirstArgumentNotString(Option<ScalarArgument>),
    /// No value slot was given for the second argument; holds its type.
    SecondArgumentAbsent(DataType),
    /// The second argument is not a constant string; holds its slot.
    SecondArgumentNotString(Option<ScalarArgument>),
    /// The schema map has no dictionary of this name.
    DictionaryNotFound(String),
    /// The dictionary has no column of this name.
    ColumnNotFound { column: String, dictionary: String },
}

/// A `DictGetError`, with its strings seen as character sequences.
pub enum DictGetErrorView {
    ArgumentCount(nat),
    FirstArgumentAbsent(DataType),
    FirstArgumentNotString(Option<ScalarArgumentView>),
    SecondArgumentAbsent(DataType),
    SecondArgumentNotString(Option<ScalarArgumentView>),
    DictionaryNotFound(Seq<char>),
    ColumnNotFound { column: Seq<char>, dictionary: Seq<char> },
}

impl View for DictGetError {
    type V = DictGetErrorView;

    open spec fn view(&self) -> DictGetErrorView {
        match self {
            DictGetError::ArgumentCount(n) => DictGetErrorView::ArgumentCount(*n as nat),
            DictGetError::FirstArgumentAbsent(t) => DictGetErrorView::FirstArgumentAbsent(*t),
            DictGetError::FirstArgumentNotString(s) => DictGetErrorView::FirstArgumentNotString(
                slot_view(*s),
            ),
            DictGetError::SecondArgumentAbsent(t) => DictGetErrorView::SecondArgumentAbsent(*t),
            DictGetError::SecondArgumentNotString(s) => DictGetErrorView::SecondArgumentNotString(
                slot_view(*s),
            ),
            DictGetError::DictionaryNotFound(d) => DictGetErrorView::DictionaryNotFound(d@),
            DictGetError::ColumnNotFound { column, dictionary } => DictGetErrorView::ColumnNotFound {
                column: column@,
                dictionary: dictionary@,
            },
        }
    }
}

/// The dictionary schema map seen as nested maps.
pub open spec fn schema_map_view(m: DictionarySchemaMap) -> Map<Seq<char>, Map<Seq<char>, DataType>> {
    m@.map_values(|columns: NameMap<DataType>| columns@)
}

/// The return type of `dictGet` for the given arguments, or why there is none.
///
/// The checks come in this order: the argument count (3 or 4), the first
/// argument (a constant string), the second argument (a constant string), the
/// dictionary, the column.
pub open spec fn dict_get_return_type(
    schema: Map<Seq<char>, Map<Seq<char>, DataType>>,
    arg_types: Seq<DataType>,
    slots: Seq<Option<ScalarArgumentView>>,
) -> Result<DataType, DictGetErrorView> {
    if arg_types.len() != 3 && arg_types.len() != 4 {
        Err(DictGetErrorView::ArgumentCount(arg_types.len()))
    } else if slots.len() < 1 {
        Err(DictGetErrorView::FirstArgumentAbsent(arg_types[0]))
    } else {
        match slots[0] {
            Some(ScalarArgumentView::Utf8(dictionary)) => {
                if slots.len() < 2 {
                    Err(DictGetErrorView::SecondArgumentAbsent(arg_types[1]))
                } else {
                    match slots[1] {
                        Some(ScalarArgumentView::Utf8(column)) => {
                            if !schema.contains_key(dictionary) {
                                Err(DictGetErrorView::DictionaryNotFound(dictionary))
                            } else if !schema[dictionary].contains_key(column) {
                                Err(DictGetErrorView::ColumnNotFound { column, dictionary })
                            } else {
                                Ok(schema[dictionary][column])
                            }
                        },
                        _ => Err(DictGetErrorView::SecondArgumentNotString(slots[1])),
                    }
                }
            },
            _ => Err(DictGetErrorView::FirstArgumentNotString(slots[0])),
        }
    }
}

/// A result seen through the view of its error.
pub open spec fn result_view<T>(r: Result<T, DictGetError>) -> Result<T, DictGetErrorView> {
    match r {
        Ok(t) => Ok(t),
        Err(e) => Err(e@),
    }
}

/// The rendering of an argument slot in messages: `None`, or `Some(..)` around
/// the constant's rendering.
pub open spec fn slot_text(slot: Option<ScalarArgumentView>) -> Seq<char> {
    match slot {
        None => "None"@,
        Some(ScalarArgumentView::Utf8(s)) => "Some(Utf8(\""@ + s + "\"))"@,
        Some(ScalarArgumentView::Other(s)) => "Some("@ + s + ")"@,
    }
}

/// The leading text of the message for an error on the first or second argument.
pub open spec fn argument_error_prefix(first: bool) -> Seq<char> {
    if first {
        "dictGet requires its first argument to be a constant string, got "@
    } else {
        "dictGet requires its second argument to be a constant string, got "@
    }
}

fn slot_message(prefix: &str, slot: &Option<ScalarArgument>) -> (msg: String)
    ensures
        msg@ == prefix@ + "constant "@ + slot_text(slot_view(*slot)),
{
    let mut msg = prefix.to_owned();
    msg.append("constant ");
    match slot {
        None => msg.append("None"),
        Some(ScalarArgument::Utf8(s)) => {
            msg.append("Some(Utf8(\"");
            msg.append(s.as_str());
            msg.append("\"))");
        },
        Some(ScalarArgument::Other(s)) => {
            msg.append("Some(");
            msg.append(s.as_str());
            msg.append(")");
        },
    }
    msg
}

impl DictGetError {
    /// The message of this error.
    pub fn message(&self) -> (msg: String)
        ensures
            match self@ {
                DictGetErrorView::ArgumentCount(n) => msg@ == "dictGet needs 3 or 4 arguments, "@
                    + decimal(n) + " provided"@,
                DictGetErrorView::FirstArgumentAbsent(t) => msg@ == argument_error_prefix(true)
                    + "non-constant "@ + data_type_text(t),
                DictGetErrorView::FirstArgumentNotString(slot) => msg@ == argument_error_prefix(true)
                    + "constant "@ + slot_text(slot),
                DictGetErrorView::SecondArgumentAbsent(t) => msg@ == argument_error_prefix(false)
                    + "non-constant "@ + data_type_text(t),
                DictGetErrorView::SecondArgumentNotString(slot) => msg@ == argument_error_prefix(false)
                    + "constant "@ + slot_text(slot),
                DictGetErrorView::DictionaryNotFound(d) => msg@ == "Dictionary '"@ + d
                    + "' not found in schema map"@,
                DictGetErrorView::ColumnNotFound { column, dictionary } => msg@ == "Column '"@
                    + column + "' not found in dictionary '"@ + dictionary + "'"@,
            },
    {
        match self {
            DictGetError::ArgumentCount(n) => {
                let mut msg = "dictGet needs 3 or 4 arguments, ".to_owned();
                msg.append(decimal_string(*n).as_str());
                msg.append(" provided");
                msg
            },
            DictGetError::FirstArgumentAbsent(t) => {
                let mut msg = "dictGet requires its first argument to be a constant string, got ".to_owned();
                msg.append("non-constant ");
                msg.append(data_type_debug(t).as_str());
                msg
            },
            DictGetError::FirstArgumentNotString(slot) => slot_message(
                "dictGet requires its first argument to be a constant string, got ",
                slot,
            ),
            DictGetError::SecondArgumentAbsent(t) => {
                let mut msg = "dictGet requires its second argument to be a constant string, got ".to_owned();
                msg.append("non-constant ");
                msg.append(data_type_debug(t).as_str());
                msg
            },
            DictGetError::SecondArgumentNotString(slot) => slot_message(
                "dictGet requires its second argument to be a constant string, got ",
                slot,
            ),
            DictGetError::DictionaryNotFound(d) => {
                let mut msg = "Dictionary '".to_owned();
                msg.append(d.as_str());
                msg.append("' not found in schema map");
                msg
            },
            DictGetError::ColumnNotFound { column, dictionary } => {
                let mut msg = "Column '".to_owned();
                msg.append(column.as_str());
                msg.append("' not found in dictionary '");
                msg.append(dictionary.as_str());
                msg.append("'");
                msg
            },
        }
    }
}

/// The `dictGet` function over a dictionary schema map.
#[derive(Debug, Clone)]
pub struct DictGet {
    signature: Signature,
    dictionary_schema: Arc<DictionarySchemaMap>,
}

/// The argument types `dictGet` accepts: (dictionary, column, key), or
/// (dictionary, column, key, time in seconds).
pub open spec fn dict_get_arguments() -> Seq<Seq<ArgumentType>> {
    seq![
        seq![ArgumentType::Utf8, ArgumentType::Utf8, ArgumentType::Utf8],
        seq![ArgumentType::Utf8, ArgumentType::Utf8, ArgumentType::Utf8, ArgumentType::TimestampSeconds],
    ]
}

impl DictGet {
    /// The dictionary schema map the function reads.
    pub closed spec fn spec_dictionary_schema(&self) -> DictionarySchemaMap {
        *self.dictionary_schema
    }

    /// The dictionary schema map seen as nested maps.
    pub open spec fn schema_view(&self) -> Map<Seq<char>, Map<Seq<char>, DataType>> {
        schema_map_view(self.spec_dictionary_schema())
    }

    /// The signature of the function.
    pub closed spec fn spec_signature(&self) -> Signature {
        self.signature
    }

    /// Create a `dictGet` function over the given dictionary schema map: it
    /// takes 3 or 4 arguments (see `dict_get_arguments`) and is immutable.
    pub fn new(dictionary_schema: Arc<DictionarySchemaMap>) -> (f: Self)
        ensures
            f.spec_dictionary_schema() == *dictionary_schema,
            f.spec_signature() == exact_signatures(dict_get_arguments(), FunctionVolatility::Immutable),
    {
        let arguments = vec![
            vec![ArgumentType::Utf8, ArgumentType::Utf8, ArgumentType::Utf8],
            vec![ArgumentType::Utf8, ArgumentType::Utf8, ArgumentType::Utf8, ArgumentType::TimestampSeconds],
        ];
        assert(arguments@.map_values(|l: Vec<ArgumentType>| l@) =~= dict_get_arguments());
        let signature = one_of_exact(&arguments, FunctionVolatility::Immutable);
        DictGet { signature, dictionary_schema }
    }

    /// The signature of the function.
    pub fn signature(&self) -> (s: &Signature)
        ensures
            *s == self.spec_signature(),
    {
        &self.signature
    }

    /// The name of the function.
    pub fn name(&self) -> (n: &'static str)
        ensures
            n@ == "dictGet"@,
    {
        "dictGet"
    }

    /// The return type for the given arguments: the type that the schema map
    /// records for the named column of the named dictionary.
    pub fn data_type_from_args(&self, args: &ReturnFieldArgs) -> (r: Result<DataType, DictGetError>)
        ensures
            result_view(r) == dict_get_return_type(self.schema_view(), args.arg_types@, args.slots()),
    {
        let count: usize = args.arg_types.len();
        if count != 3 && count != 4 {
            return Err(DictGetError::ArgumentCount(count));
        }
        if args.scalar_arguments.len() < 1 {
            return Err(DictGetError::FirstArgumentAbsent(args.arg_types[0].clone()));
        }
        let dictionary_name = match &args.scalar_arguments[0] {
            Some(ScalarArgument::Utf8(name)) => name,
            other => {
                return Err(DictGetError::FirstArgumentNotString(clone_slot(other)));
            },
        };
        if args.scalar_arguments.len() < 2 {
            return Err(DictGetError::SecondArgumentAbsent(args.arg_types[1].clone()));
        }
        let column_name = match &args.scalar_arguments[1] {
            Some(ScalarArgument::Utf8(name)) => name,
            other => {
                return Err(DictGetError::SecondArgumentNotString(clone_slot(other)));
            },
        };
        match self.dictionary_schema.get(dictionary_name.as_str()) {
            Some(columns) => match columns.get(column_name.as_str()) {
                Some(data_type) => Ok(data_type.clone()),
                None => Err(
                    DictGetError::ColumnNotFound {
                        column: column_name.clone(),
                        dictionary: dictionary_name.clone(),
                    },
                ),
            },
            None => Err(DictGetError::DictionaryNotFound(dictionary_name.clone())),
        }
    }

    /// The return field for the given arguments: a nullable field named after
    /// the function, of the type that `data_type_from_args` finds.
    pub fn return_field_from_args(&self, args: &ReturnFieldArgs) -> (r: Result<Arc<Field>, DictGetError>)
        ensures
            match (r, dict_get_return_type(self.schema_view(), args.arg_types@, args.slots())) {
                (Ok(f), Ok(t)) => {
                    &&& field_name(*f) == "dictGet"@
                    &&& field_data_type(*f) == t
                    &&& field_is_nullable(*f)
                },
                (Err(e), Err(expected)) => e@ == expected,
                _ => false,
            },
    {
        let return_type = self.data_type_from_args(args)?;
        Ok(Arc::new(new_field(self.name(), return_type, true)))
    }
}

/// A copy of an argument slot, with the same view.
fn clone_slot(slot: &Option<ScalarArgument>) -> (c: Option<ScalarArgument>)
    ensures
        slot_view(c) == slot_view(*slot),
{
    match slot {
        None => None,
        Some(ScalarArgument::Utf8(s)) => Some(ScalarArgument::Utf8(s.clone())),
        Some(ScalarArgument::Other(s)) => Some(ScalarArgument::Other(s.clone())),
    }
}

} // verus!
