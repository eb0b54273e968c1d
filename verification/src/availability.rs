//! Whether a model is among those that the service hosts locally.

use vstd::prelude::*;
use vstd::string::*;

verus! {

/// What a query for the locally hosted models showed.
#[derive(Debug, Clone, Copy, PartialEq, Eq, Structural)]
pub enum Availability {
    /// The model is among the hosted ones.
    Available,
    /// The service answered, and the model is not among its models.
    Missing,
    /// The query itself failed.
    Unreachable,
}

/// Whether one of `names` is exactly `model`.
pub open spec fn hosts_model(names: Seq<String>, model: Seq<char>) -> bool {
    exists|i: int| 0 <= i < names.len() && (#[trigger] names[i])@ == model
}

/// The report for a listing (the answer to the query for the hosted models, or
/// the description of its failure) and a model name.
pub open spec fn availability_of(
    listing: Result<Vec<String>, String>,
    model: Seq<char>,
) -> Availability {
    match listing {
        Err(_) => Availability::Unreachable,
        Ok(names) => if hosts_model(names@, model) {
            Availability::Available
        } else {
            Availability::Missing
        },
    }
}

/// Searches `names` for an entry equal to `model`; the match is exact and
/// case-sensitive.
pub fn contains_name(names: &Vec<String>, model: &str) -> (found: bool)
    ensures
        found == hosts_model(names@, model@),
{
    let wanted = String::from_str(model);
    let mut i: usize = 0;
    while i < names.len()
        invariant
            i <= names.len(),
            wanted@ == model@,
            forall|j: int| 0 <= j < i ==> (#[trigger] names@[j])@ != model@,
        decreases names.len() - i,
    {
        if names[i] == wanted {
            return true;
        }
        i += 1;
    }
    false
}

/// Classifies the answer to the query for the hosted models.
pub fn classify_listing(listing: &Result<Vec<String>, String>, model: &str) -> (report:
    Availability)
    ensures
        report == availability_of(*listing, model@),
{
    match listing {
        Err(_) => Availability::Unreachable,
        Ok(names) => if contains_name(names, model) {
            Availability::Available
        } else {
            Availability::Missing
        },
    }
}

/// A model is reported available exactly when the query succeeded and the
/// model's name is an element of the reported list; a failed query never
/// reports it available.
pub proof fn available_iff_listed(listing: Result<Vec<String>, String>, model: Seq<char>)
    ensures
        availability_of(listing, model) == Availability::Available <==> (listing is Ok
            && hosts_model(listing->Ok_0@, model)),
        listing is Err ==> availability_of(listing, model) == Availability::Unreachable,
{
}

} // verus!
