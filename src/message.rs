use vstd::prelude::*;

verus! {

/// A structured value decoded by serde_json; the bridge only carries it.
#[verifier::external_type_specification]
#[verifier::external_body]
pub struct ExValue(serde_json::Value);

/// One unit of work destined for the UI thread.
#[derive(Debug)]
pub enum CoreMsg {
    /// An unsolicited push from the backend.
    Notification { method: String, params: serde_json::Value },
    /// The outcome of a `new_view` request, with the file it was issued for.
    NewViewReply { file_name: Option<String>, value: serde_json::Value },
}

} // verus!
