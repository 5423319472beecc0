use vstd::prelude::*;
use vstd::string::StringExecFns;
use crate::json::{json_text_of, value_to_vec};

verus! {

/// The URL of the send operation for the project `project_id`.
pub open spec fn url_of(project_id: Seq<char>) -> Seq<char> {
    "https://fcm.googleapis.com/v1/projects/"@ + project_id + "/messages:send"@
}

/// Builds the endpoint URL by placing `project_id` verbatim into the fixed template.
pub fn request_url(project_id: &str) -> (r: String)
    ensures
        r@ == url_of(project_id@),
{
    let mut url = String::from_str("https://fcm.googleapis.com/v1/projects/");
    url.append(project_id);
    url.append("/messages:send");
    url
}

/// The bytes of `{"message":` that open the envelope.
pub open spec fn envelope_head() -> Seq<u8> {
    seq![123u8, 34u8, 109u8, 101u8, 115u8, 115u8, 97u8, 103u8, 101u8, 34u8, 58u8]
}

/// The request body: a JSON object whose single key `message` maps to the
/// serialized message `msg`.
pub open spec fn envelope_of(msg: Seq<u8>) -> Seq<u8> {
    envelope_head() + msg + seq![125u8]
}

/// The body is the envelope head, the message's bytes unchanged, and one
/// closing brace: the object has the single key `message` and nothing else.
pub proof fn lemma_envelope_holds_only_message(msg: Seq<u8>)
    ensures
        envelope_of(msg).len() == msg.len() + 12,
        envelope_of(msg).subrange(0, 11) == envelope_head(),
        envelope_of(msg).subrange(11, 11 + msg.len() as int) == msg,
        envelope_of(msg).last() == 125u8,
{
    let e = envelope_of(msg);
    assert(e.subrange(0, 11) == envelope_head());
    assert(e.subrange(11, 11 + msg.len() as int) == msg);
}

/// Frames the serialized message `msg` in the single-field envelope.
pub fn envelope(msg: &[u8]) -> (r: Vec<u8>)
    requires
        msg@.len() + 12 <= usize::MAX,
    ensures
        r@ == envelope_of(msg@),
{
    let mut out: Vec<u8> = vec![123u8, 34u8, 109u8, 101u8, 115u8, 115u8, 97u8, 103u8, 101u8, 34u8, 58u8];
    assert(out@ == envelope_head());
    let mut i: usize = 0;
    while i < msg.len()
        invariant
            i <= msg@.len(),
            out@ == envelope_head() + msg@.subrange(0, i as int),
        decreases msg@.len() - i,
    {
        out.push(msg[i]);
        i += 1;
        assert(msg@.subrange(0, i as int) == msg@.subrange(0, i - 1) + seq![msg@[i - 1]]);
    }
    assert(msg@.subrange(0, msg@.len() as int) == msg@);
    out.push(125u8);
    out
}

/// The single-field envelope around a finalized message.
pub struct MessageWrapper<'a> {
    pub message: &'a serde_json::Value,
}

impl<'a> MessageWrapper<'a> {
    /// Wraps `message`, borrowing it for the duration of one send.
    pub fn new(message: &'a serde_json::Value) -> (r: MessageWrapper<'a>)
        ensures
            r.message == message,
    {
        MessageWrapper { message }
    }

    /// Serializes the envelope: the body is the envelope of the message's
    /// JSON text.
    pub fn to_vec(&self) -> (r: Vec<u8>)
        ensures
            r@ == envelope_of(json_text_of(*self.message)),
    {
        match value_to_vec(self.message) {
            Ok(msg) => envelope(msg.as_slice()),
            Err(_) => {
                // A `Value` always serializes.
                proof {
                    assert(false);
                }
                Vec::new()
            },
        }
    }
}

} // verus!
