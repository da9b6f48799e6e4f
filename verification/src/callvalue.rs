//! The call-value parser: from the operator's free-form argument text to
//! the uniform aggregate shape the call builder consumes.
//!
//! Policy: a value that already parses as a structured aggregate (a
//! composite) passes through unchanged; any other parsed value is wrapped
//! as the single field of an unnamed aggregate.
use vstd::prelude::*;

use crate::errors::CeremonyError;

verus! {

#[verifier::external_type_specification]
#[verifier::external_body]
#[verifier::reject_recursive_types(T)]
pub struct ExScaleValue<T>(scale_value::Value<T>);

#[verifier::external_type_specification]
#[verifier::external_body]
#[verifier::reject_recursive_types(T)]
pub struct ExScaleComposite<T>(scale_value::Composite<T>);

/// Whether the call-argument text parses as a value.
pub uninterp spec fn call_text_parses(s: Seq<char>) -> bool;

/// Whether the call-argument text parses as a composite value.
pub uninterp spec fn text_parses_to_composite(s: Seq<char>) -> bool;

/// A parsed call value, split by whether the parser saw a structured
/// aggregate at top level.
#[derive(Debug)]
pub enum CallValue {
    /// The parsed value was already a composite.
    Composite(scale_value::Composite<()>),
    /// Any other parsed value: a scalar, a variant or a bit sequence.
    Plain(scale_value::Value<()>),
}

/// The uniform aggregate shape handed to the call builder.
#[derive(Debug)]
pub enum CallComposite {
    /// A composite passed through unchanged.
    Passed(scale_value::Composite<()>),
    /// A non-composite value, to stand as the single field of an unnamed
    /// aggregate.
    WrappedSingle(scale_value::Value<()>),
}

/// Relies on scale_value::stringify::from_str: whether the text parses
/// depends on the text alone; on failure the parser's diagnostic and the
/// offending input are reported.
#[verifier::external_body]
pub fn parse_string_into_scale_value(s: &str) -> (r: Result<CallValue, CeremonyError>)
    ensures
        r is Ok <==> call_text_parses(s@),
        r matches Ok(v) ==> ((v is Composite) <==> text_parses_to_composite(s@)),
        r matches Err(e) ==> (e matches CeremonyError::ArgumentParse(input, _) && input@ == s@),
{
    match scale_value::stringify::from_str(s).0 {
        Ok(scale_value::Value { value: scale_value::ValueDef::Composite(c), .. }) => Ok(
            CallValue::Composite(c),
        ),
        Ok(v) => Ok(CallValue::Plain(v)),
        Err(e) => Err(CeremonyError::ArgumentParse(s.to_string(), format!("{e}"))),
    }
}

/// Composites stay composites; every other value becomes the single field
/// of an unnamed composite.
pub fn value_into_composite(value: CallValue) -> (r: CallComposite)
    ensures
        match value {
            CallValue::Composite(c) => r == CallComposite::Passed(c),
            CallValue::Plain(v) => r == CallComposite::WrappedSingle(v),
        },
{
    match value {
        CallValue::Composite(c) => CallComposite::Passed(c),
        CallValue::Plain(v) => CallComposite::WrappedSingle(v),
    }
}

/// Relies on scale_value::Composite::Unnamed: a passed composite comes back
/// unchanged; a wrapped value becomes the only field of an unnamed
/// composite.
#[verifier::external_body]
pub fn into_scale_composite(c: CallComposite) -> (r: scale_value::Composite<()>)
    ensures
        c matches CallComposite::Passed(x) ==> r == x,
{
    match c {
        CallComposite::Passed(x) => x,
        CallComposite::WrappedSingle(v) => scale_value::Composite::Unnamed(vec![v]),
    }
}

/// Parse the operator's argument text and normalize it to the uniform
/// aggregate shape. Succeeds exactly when the text parses; text parsing as
/// a composite passes through, everything else is wrapped.
pub fn parse_call_arguments(s: &str) -> (r: Result<CallComposite, CeremonyError>)
    ensures
        r is Ok <==> call_text_parses(s@),
        r matches Ok(c) ==> ((c is Passed) <==> text_parses_to_composite(s@)),
        r matches Err(e) ==> (e matches CeremonyError::ArgumentParse(input, _) && input@ == s@),
{
    match parse_string_into_scale_value(s) {
        Err(e) => Err(e),
        Ok(v) => Ok(value_into_composite(v)),
    }
}

} // verus!
