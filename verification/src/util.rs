//! Outbound messages: the request identifier and the text that goes on the
//! wire.

use crate::json::{json_quoted, json_string};
use rand::Rng;
use vstd::prelude::*;

verus! {

/// The number of characters in a request identifier.
pub const REQUEST_ID_LENGTH: usize = 8;

/// Whether `c` is an ASCII letter or digit.
pub open spec fn is_alphanumeric(c: char) -> bool {
    ('0' <= c && c <= '9') || ('a' <= c && c <= 'z') || ('A' <= c && c <= 'Z')
}

/// Whether `id` is made of ASCII letters and digits only.
pub open spec fn is_alphanumeric_text(id: Seq<char>) -> bool {
    forall|i: int| 0 <= i < id.len() ==> is_alphanumeric(#[trigger] id[i])
}

/// Whether `id` has the form of a request identifier.
pub open spec fn is_request_id(id: Seq<char>) -> bool {
    id.len() == REQUEST_ID_LENGTH && is_alphanumeric_text(id)
}

/// Samples `rand`'s `Alphanumeric` distribution with the generator of the
/// calling thread. The distribution yields the code of an ASCII letter or
/// digit; which one is left open. The generator seeds itself from the system
/// on a thread's first call and panics if the system has no randomness to
/// give; nothing that a caller passes can bring that about.
#[verifier::external_body]
fn random_alphanumeric() -> (code: u8)
    ensures
        is_alphanumeric(code as char),
{
    rand::thread_rng().sample(rand::distributions::Alphanumeric)
}

/// A random text of `length` ASCII letters and digits.
pub fn generate_random_uid(length: usize) -> (uid: String)
    ensures
        uid@.len() == length,
        is_alphanumeric_text(uid@),
{
    let mut uid = String::new();
    let mut i: usize = 0;
    while i < length
        invariant
            i <= length,
            uid@.len() == i,
            is_alphanumeric_text(uid@),
        decreases length - i,
    {
        let code = random_alphanumeric();
        uid.push(code as char);
        i += 1;
    }
    uid
}

/// A control message before it is written out.
#[derive(Debug, Clone, PartialEq, Eq)]
pub struct OutboundRequest {
    /// The identifier by which an answer is matched to the request.
    pub req_id: String,
    /// The operation: `ping` or `subscribe`.
    pub op: String,
    /// The topics of a subscription, in order. A ping has none.
    pub args: Option<Vec<String>>,
}

/// The mathematical value of an [`OutboundRequest`].
pub struct OutboundRequestView {
    pub req_id: Seq<char>,
    pub op: Seq<char>,
    pub args: Option<Seq<Seq<char>>>,
}

impl View for OutboundRequest {
    type V = OutboundRequestView;

    open spec fn view(&self) -> OutboundRequestView {
        OutboundRequestView {
            req_id: self.req_id@,
            op: self.op@,
            args: self.args.deep_view(),
        }
    }
}

/// The JSON string literals of `items`, separated by commas.
pub open spec fn quoted_list(items: Seq<Seq<char>>) -> Seq<char>
    decreases items.len(),
{
    if items.len() == 0 {
        Seq::empty()
    } else if items.len() == 1 {
        json_quoted(items[0])
    } else {
        quoted_list(items.drop_last()) + seq![','] + json_quoted(items.last())
    }
}

/// The text of a request on the wire: a JSON object without white space
/// whose keys stand in alphabetical order, `args` (if the request has
/// topics), `op`, `req_id`.
pub open spec fn request_text(request: OutboundRequestView) -> Seq<char> {
    let tail = "\"op\":"@ + json_quoted(request.op) + ",\"req_id\":"@ + json_quoted(request.req_id)
        + "}"@;
    match request.args {
        Some(topics) => "{\"args\":["@ + quoted_list(topics) + "],"@ + tail,
        None => "{"@ + tail,
    }
}

fn push_quoted_list(out: &mut String, items: &Vec<String>)
    ensures
        final(out)@ == old(out)@ + quoted_list(items.deep_view()),
{
    let ghost all = items.deep_view();
    let ghost start = out@;
    let mut i: usize = 0;
    while i < items.len()
        invariant
            i <= items.len(),
            all == items.deep_view(),
            out@ == start + quoted_list(all.take(i as int)),
        decreases items.len() - i,
    {
        let literal = json_string(items[i].as_str());
        proof {
            let before = all.take(i as int);
            let after = all.take(i + 1);
            assert(after.drop_last() =~= before);
            assert(after.last() == items[i as int]@);
            if i == 0 {
                assert(quoted_list(before) =~= Seq::<char>::empty());
                assert(start + quoted_list(before) + literal@ =~= start + quoted_list(after));
            } else {
                assert(start + quoted_list(before) + seq![','] + literal@ =~= start + quoted_list(
                    after,
                ));
            }
        }
        if i > 0 {
            out.push(',');
        }
        out.append(literal.as_str());
        i += 1;
    }
    assert(all.take(items.len() as int) =~= all);
}

/// Writes a request out as it goes on the wire.
pub fn build_json_request(request: &OutboundRequest) -> (text: String)
    ensures
        text@ == request_text(request@),
{
    let mut text = String::new();
    match &request.args {
        Some(topics) => {
            text.append("{\"args\":[");
            push_quoted_list(&mut text, topics);
            text.append("],");
        },
        None => {
            text.append("{");
        },
    }
    text.append("\"op\":");
    text.append(json_string(request.op.as_str()).as_str());
    text.append(",\"req_id\":");
    text.append(json_string(request.req_id.as_str()).as_str());
    text.append("}");
    assert(text@ =~= request_text(request@));
    text
}

/// A request with a fresh random identifier.
pub fn build_request(op: &str, args: Option<Vec<String>>) -> (request: OutboundRequest)
    ensures
        is_request_id(request.req_id@),
        request.op@ == op@,
        request.args.deep_view() == args.deep_view(),
{
    OutboundRequest { req_id: generate_random_uid(REQUEST_ID_LENGTH), op: op.to_owned(), args }
}

} // verus!
