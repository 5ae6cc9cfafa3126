use vstd::prelude::*;

use crate::model::Webhook;

verus! {

/// A failed delivery: the diagnostic text carries the server's response
/// body.
#[derive(Debug, Clone, PartialEq, Eq)]
pub struct SendError {
    pub detail: String,
}

impl View for SendError {
    type V = Seq<char>;

    open spec fn view(&self) -> Seq<char> {
        self.detail@
    }
}

impl SendError {
    /// The diagnostic text.
    pub fn message(&self) -> (r: &str)
        ensures
            r@ == self@,
    {
        self.detail.as_str()
    }
}

/// The diagnostic text built for a failed delivery with this response body.
pub open spec fn failure_detail(body: Seq<char>) -> Seq<char> {
    "Failed to send request, "@ + body
}

/// Classifies an HTTP response to a delivery: status 200 or 204 is success,
/// any other status is a failure whose detail carries the response body.
pub fn delivery_outcome(status: u16, body: &str) -> (r: Result<(), SendError>)
    ensures
        r is Ok <==> status == 200 || status == 204,
        r matches Err(e) ==> e@ == failure_detail(body@),
{
    if status == 200 || status == 204 {
        Ok(())
    } else {
        let detail = String::from_str("Failed to send request, ").concat(body);
        Err(SendError { detail })
    }
}

impl Webhook {
    /// The URL a delivery posts to: the destination with the query that
    /// asks the server to confirm the delivery.
    pub fn request_url(&self) -> (r: String)
        ensures
            r@ == self@.webhook_url + "?wait=true"@,
    {
        String::from_str(self.webhook_url()).concat("?wait=true")
    }
}

} // verus!
