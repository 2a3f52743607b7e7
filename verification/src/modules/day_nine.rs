//! The milk counter: what to answer to a request for milk, once it is known
//! whether the bucket had any.
//!
//! The bucket itself keeps time and lives with the server; so does the
//! conversion of quantities, which is arithmetic on floating point.

use crate::utils::reply::{Reply, Status};
use vstd::prelude::*;
use vstd::string::StringSliceAdditionalSpecFns;

verus! {

/// How many portions the bucket holds when it is full.
pub const BUCKET_MAX: usize = 5;

/// How many portions the bucket holds at the start.
pub const BUCKET_INITIAL: usize = 5;

/// How many portions flow back into the bucket at a time.
pub const BUCKET_REFILL: usize = 1;

/// How many seconds pass between two refills.
pub const REFILL_SECONDS: u64 = 1;

/// The content type of a request that asks for a conversion.
pub const JSON: &'static str = "application/json";

/// What to do with a request for milk.
#[derive(Debug, Clone, PartialEq, Eq)]
pub enum Milk {
    /// Send this answer; there is nothing to convert.
    Answer(Reply),
    /// Convert the quantity that the request carries, and send the result.
    Convert,
}

/// The status and the text of an answer.
pub open spec fn said(reply: Reply) -> (Status, Seq<char>) {
    (reply.status, reply.body@)
}

/// Whether a content type, given as its octets, is that of JSON.
pub open spec fn is_json(content_type: Option<Seq<u8>>) -> bool {
    content_type == Some(JSON.spec_bytes())
}

/// The answer to a request that finds the bucket empty.
pub fn too_many_requests() -> (reply: Reply)
    ensures
        said(reply) == (Status::TooManyRequests, "No milk available\n"@),
{
    Reply::new(Status::TooManyRequests, "No milk available\n")
}

/// The answer to a request that takes milk and wants nothing converted.
pub fn milk_withdrawn() -> (reply: Reply)
    ensures
        said(reply) == (Status::Success, "Milk withdrawn\n"@),
{
    Reply::new(Status::Success, "Milk withdrawn\n")
}

/// The answer to a request whose quantity cannot be read.
pub fn bad_request() -> (reply: Reply)
    ensures
        said(reply) == (Status::BadRequest, Seq::<char>::empty()),
{
    Reply::empty(Status::BadRequest)
}

/// The answer to a request that was carried out and has nothing to show.
pub fn ok() -> (reply: Reply)
    ensures
        said(reply) == (Status::Success, Seq::<char>::empty()),
{
    Reply::empty(Status::Success)
}

/// Whether two rows of octets are the same.
fn same_octets(a: &[u8], b: &[u8]) -> (same: bool)
    ensures
        same == (a@ == b@),
{
    if a.len() != b.len() {
        return false;
    }
    let mut i: usize = 0;
    while i < a.len()
        invariant
            i <= a.len(),
            a@.len() == b@.len(),
            forall|j: int| 0 <= j < i ==> a@[j] == b@[j],
        decreases a.len() - i,
    {
        if a[i] != b[i] {
            return false;
        }
        i += 1;
    }
    assert(a@ =~= b@);
    true
}

/// What a decision says: the status and text of its answer, or `None`
/// where it asks for a conversion.
pub open spec fn chosen(decision: Milk) -> Option<(Status, Seq<char>)> {
    match decision {
        Milk::Answer(reply) => Some(said(reply)),
        Milk::Convert => None,
    }
}

/// The octets that were sent as content type, if any were.
pub open spec fn sent_octets(content_type: Option<&[u8]>) -> Option<Seq<u8>> {
    match content_type {
        Some(sent) => Some(sent@),
        None => None,
    }
}

/// What is due to a request for milk. Without milk the request is turned
/// away. With milk, a request that is not JSON has simply withdrawn its
/// portion; a JSON request without a readable quantity is a bad request;
/// any other is to be converted, which `None` stands for.
pub open spec fn milk_due(
    has_milk: bool,
    content_type: Option<Seq<u8>>,
    has_payload: bool,
) -> Option<(Status, Seq<char>)> {
    if !has_milk {
        Some((Status::TooManyRequests, "No milk available\n"@))
    } else if !is_json(content_type) {
        Some((Status::Success, "Milk withdrawn\n"@))
    } else if !has_payload {
        Some((Status::BadRequest, Seq::empty()))
    } else {
        None
    }
}

/// Decides a request for milk.
///
/// `has_milk` says whether the bucket gave a portion, `content_type` is the
/// request's content type as it was sent, if it sent one, and `has_payload`
/// says whether the request carried a quantity that could be read.
pub fn milk(has_milk: bool, content_type: Option<&[u8]>, has_payload: bool) -> (decision: Milk)
    ensures
        chosen(decision) == milk_due(has_milk, sent_octets(content_type), has_payload),
{
    if !has_milk {
        return Milk::Answer(too_many_requests());
    }
    let sent = match content_type {
        Some(sent) => sent,
        None => {
            return Milk::Answer(milk_withdrawn());
        },
    };
    if !same_octets(sent, JSON.as_bytes()) {
        return Milk::Answer(milk_withdrawn());
    }
    if !has_payload {
        return Milk::Answer(bad_request());
    }
    Milk::Convert
}

} // verus!
