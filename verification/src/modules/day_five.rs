//! The manifest request: what to answer once the orders have been read.

use crate::utils::cargo_manifest::{orders_text, Metadata};
use crate::utils::error_responses::no_content;
use crate::utils::reply::{Reply, Status};
use vstd::prelude::*;

verus! {

/// Answers a manifest whose orders have been read: with the orders, one on
/// each line; or, where there is no order, with no content.
pub fn manifest(metadata: &Metadata) -> (reply: Reply)
    ensures
        metadata.orders@.len() == 0 ==> reply.status == Status::NoContent && reply.body@
            == Seq::<char>::empty(),
        metadata.orders@.len() > 0 ==> reply.status == Status::Success && reply.body@
            == orders_text(metadata.orders@),
{
    if metadata.orders.len() == 0 {
        return no_content();
    }
    Reply { status: Status::Success, body: metadata.text() }
}

} // verus!
