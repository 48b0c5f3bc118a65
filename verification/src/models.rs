//! The model-listing operation: turning the outcome of one GET against
//! `{base}/v1/models` into the caller's result.

use vstd::prelude::*;

verus! {

/// What the transport observed when asking the node for its models.
pub enum ModelsOutcome {
    /// A success status, and a body that parsed: the model identifiers, in
    /// the node's own order.
    Reply(Vec<String>),
    /// A success status, but the body did not parse; the parse failure
    /// description.
    MalformedReply(String),
    /// A reply whose status code is not in the success range.
    ErrorStatus(u16),
    /// The node could not be reached.
    Unreachable,
}

/// The single model identifier reported when the node cannot be asked.
pub open spec fn fallback_model() -> Seq<char> {
    "zen-mini-0.5b"@
}

/// Maps a models outcome to the caller's result. The node's identifier
/// sequence is passed through verbatim, in its original order; an
/// unreachable node or a non-success status is absorbed into the one-element
/// fallback list; only a parse failure surfaces as an error.
pub fn get_models(outcome: ModelsOutcome) -> (r: Result<Vec<String>, String>)
    ensures
        outcome matches ModelsOutcome::Reply(ids) ==> r == Ok::<Vec<String>, String>(ids),
        outcome matches ModelsOutcome::MalformedReply(e) ==> r == Err::<Vec<String>, String>(e),
        (outcome matches ModelsOutcome::ErrorStatus(_) || outcome is Unreachable) ==> (r matches Ok(
            ids,
        ) && ids@.len() == 1 && ids@[0]@ == fallback_model()),
{
    match outcome {
        ModelsOutcome::Reply(ids) => Ok(ids),
        ModelsOutcome::MalformedReply(e) => Err(e),
        ModelsOutcome::ErrorStatus(_) | ModelsOutcome::Unreachable => {
            let mut ids: Vec<String> = Vec::new();
            ids.push("zen-mini-0.5b".to_owned());
            Ok(ids)
        },
    }
}

} // verus!
