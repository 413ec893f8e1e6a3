//! `argMax`: the ClickHouse aggregate `argMax(value, key)`, which gives the
//! value of the row with the greatest key.

use crate::signature::{any_arguments, any_signature, FunctionVolatility};
use datafusion::arrow::datatypes::DataType;
use datafusion::logical_expr::Signature;
use vstd::prelude::*;

verus! {

/// Why `argMax` has no return type.
#[derive(Debug, Clone, Copy, PartialEq, Eq)]
pub enum ArgMaxError {
    /// The call has no arguments.
    NoArguments,
}

impl ArgMaxError {
    /// The message of this error.
    pub fn message(&self) -> (msg: String)
        ensures
            msg@ == "argMax expects at least one argument"@,
    {
        "argMax expects at least one argument".to_owned()
    }
}

/// The `argMax` aggregate function.
#[derive(Debug, Clone)]
pub struct ArgMax {
    signature: Signature,
    aliases: Vec<String>,
}

impl ArgMax {
    /// The other names of the function.
    pub closed spec fn spec_aliases(&self) -> Seq<Seq<char>> {
        self.aliases@.map_values(|s: String| s@)
    }

    /// The signature of the function.
    pub closed spec fn spec_signature(&self) -> Signature {
        self.signature
    }

    /// Create the `argMax` function: it takes two arguments of any type, is
    /// immutable, and its one other name is `argmax`.
    pub fn new() -> (f: Self)
        ensures
            f.spec_aliases() == seq!["argmax"@],
            f.spec_signature() == any_signature(2, FunctionVolatility::Immutable),
    {
        let mut aliases: Vec<String> = Vec::new();
        aliases.push("argmax".to_owned());
        let signature = any_arguments(2, FunctionVolatility::Immutable);
        let f = ArgMax { signature, aliases };
        assert(f.spec_aliases() =~= seq!["argmax"@]);
        f
    }

    /// The name of the function.
    pub fn name(&self) -> (n: &'static str)
        ensures
            n@ == "argMax"@,
    {
        "argMax"
    }

    /// The signature of the function.
    pub fn signature(&self) -> (s: &Signature)
        ensures
            *s == self.spec_signature(),
    {
        &self.signature
    }

    /// The other names of the function.
    pub fn aliases(&self) -> (a: &[String])
        ensures
            a@.len() == self.spec_aliases().len(),
            forall|i: int| 0 <= i < a@.len() ==> #[trigger] a@[i]@ == self.spec_aliases()[i],
    {
        self.aliases.as_slice()
    }

    /// The return type for the given argument types: the type of the first
    /// argument (the value).
    pub fn return_type(&self, arg_types: &[DataType]) -> (r: Result<DataType, ArgMaxError>)
        ensures
            arg_types@.len() > 0 ==> r == Ok::<DataType, ArgMaxError>(arg_types@[0]),
            arg_types@.len() == 0 ==> r == Err::<DataType, ArgMaxError>(ArgMaxError::NoArguments),
    {
        if arg_types.len() > 0 {
            Ok(arg_types[0].clone())
        } else {
            Err(ArgMaxError::NoArguments)
        }
    }
}

impl Default for ArgMax {
    /// The `argMax` function, as `new` makes it.
    fn default() -> (f: Self)
        ensures
            f.spec_aliases() == seq!["argmax"@],
            f.spec_signature() == any_signature(2, FunctionVolatility::Immutable),
    {
        Self::new()
    }
}

} // verus!
