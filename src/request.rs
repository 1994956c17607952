//! Request parameters, configuration values, and the validation that runs
//! before any cache or compute work.

use vstd::prelude::*;

verus! {

/// A duration in whole seconds.
pub struct Seconds {
    pub seconds: usize,
}

/// The query of a factorial request: the number to compute the factorial of.
pub struct FactorialProcessingQueryParams {
    pub input_number: u32,
}

/// What validation decided about a request.
pub enum Validation {
    /// No number was given: the landing page is shown.
    NoInput,
    /// The number exceeds the limit; the message is shown instead of a result.
    Rejected(String),
    /// The number is within the limit and goes on to the cache-aside path.
    Accepted(u32),
}

/// The text shown for a number above the limit.
pub open spec fn refusal_text() -> Seq<char> {
    "The input number is too big!"@
}

/// The refusal shown for a number above the limit.
pub fn refusal_message() -> (r: String)
    ensures
        r@ == refusal_text(),
{
    String::from_str("The input number is too big!")
}

/// Decides what becomes of a request: no number, a number above `limit`, or
/// an accepted number. Nothing is looked up or computed here.
pub fn validate(query: Option<FactorialProcessingQueryParams>, limit: u32) -> (r: Validation)
    ensures
        query is None ==> r is NoInput,
        query is Some && query->0.input_number > limit ==> (r matches Validation::Rejected(m)
            && m@ == refusal_text()),
        query is Some && query->0.input_number <= limit ==> r == Validation::Accepted(
            query->0.input_number,
        ),
{
    match query {
        None => Validation::NoInput,
        Some(q) => {
            if q.input_number > limit {
                Validation::Rejected(refusal_message())
            } else {
                Validation::Accepted(q.input_number)
            }
        },
    }
}

} // verus!
