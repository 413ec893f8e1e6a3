//! Function signatures: which arguments a function accepts, and how volatile
//! it is, as DataFusion's `Signature` records them.

use datafusion::arrow::datatypes::{DataType, TimeUnit};
use datafusion::logical_expr::{Signature, TypeSignature, Volatility};
use vstd::prelude::*;

verus! {

/// How a function's result may vary for the same arguments (DataFusion's
/// `Volatility`).
#[derive(Debug, Clone, Copy, PartialEq, Eq)]
pub enum FunctionVolatility {
    /// Always the same result for the same arguments.
    Immutable,
    /// The same result for the same arguments within one query.
    Stable,
    /// The result may change from one call to the next.
    Volatile,
}

/// An argument type that the library's functions name in their signatures.
#[derive(Debug, Clone, Copy, PartialEq, Eq)]
pub enum ArgumentType {
    /// A UTF-8 string (`DataType::Utf8`).
    Utf8,
    /// A timestamp in seconds, without a time zone
    /// (`DataType::Timestamp(TimeUnit::Second, None)`).
    TimestampSeconds,
}

/// A DataFusion function signature.
#[verifier::external_type_specification]
#[verifier::external_body]
pub struct ExSignature(Signature);

/// `Signature::clone` (a derived `Clone`) gives back an equal signature.
pub assume_specification[ <Signature as Clone>::clone ](s: &Signature) -> (r: Signature)
    ensures
        r == *s,
;

/// The signature that `Signature::one_of` makes of one `TypeSignature::Exact`
/// per list of argument types, in order, with the given volatility.
pub uninterp spec fn exact_signatures(arg_types: Seq<Seq<ArgumentType>>, volatility: FunctionVolatility) -> Signature;

/// The signature that `Signature::any` makes: `count` arguments of any type,
/// with the given volatility.
pub uninterp spec fn any_signature(count: nat, volatility: FunctionVolatility) -> Signature;

/// Calls `Signature::one_of` with a `TypeSignature::Exact` of each list of
/// argument types, each type and the volatility converted to DataFusion's.
#[verifier::external_body]
pub(crate) fn one_of_exact(arg_types: &Vec<Vec<ArgumentType>>, volatility: FunctionVolatility) -> (s: Signature)
    ensures
        s == exact_signatures(arg_types@.map_values(|l: Vec<ArgumentType>| l@), volatility),
{
    let volatility = match volatility {
        FunctionVolatility::Immutable => Volatility::Immutable,
        FunctionVolatility::Stable => Volatility::Stable,
        FunctionVolatility::Volatile => Volatility::Volatile,
    };
    let arrow_type = |t: &ArgumentType| match t {
        ArgumentType::Utf8 => DataType::Utf8,
        ArgumentType::TimestampSeconds => DataType::Timestamp(TimeUnit::Second, None),
    };
    let exact = |l: &Vec<ArgumentType>| TypeSignature::Exact(l.iter().map(arrow_type).collect());
    Signature::one_of(arg_types.iter().map(exact).collect(), volatility)
}

/// Calls `Signature::any` with the count and the volatility converted to
/// DataFusion's.
#[verifier::external_body]
pub(crate) fn any_arguments(count: usize, volatility: FunctionVolatility) -> (s: Signature)
    ensures
        s == any_signature(count as nat, volatility),
{
    let volatility = match volatility {
        FunctionVolatility::Immutable => Volatility::Immutable,
        FunctionVolatility::Stable => Volatility::Stable,
        FunctionVolatility::Volatile => Volatility::Volatile,
    };
    Signature::any(count, volatility)
}

} // verus!
