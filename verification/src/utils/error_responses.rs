//! The fixed answers that turn a manifest away.

use crate::utils::reply::{Reply, Status};
use vstd::prelude::*;

verus! {

/// The answer to a manifest that cannot be read.
pub fn invalid_manifest() -> (reply: Reply)
    ensures
        reply.status == Status::BadRequest,
        reply.body@ == "Invalid manifest"@,
{
    Reply::new(Status::BadRequest, "Invalid manifest")
}

/// The answer to a manifest that lacks the magic keyword.
pub fn magic_keyword_not_provided() -> (reply: Reply)
    ensures
        reply.status == Status::BadRequest,
        reply.body@ == "Magic keyword not provided"@,
{
    Reply::new(Status::BadRequest, "Magic keyword not provided")
}

/// The answer to a manifest that orders nothing.
pub fn no_content() -> (reply: Reply)
    ensures
        reply.status == Status::NoContent,
        reply.body@ == Seq::<char>::empty(),
{
    Reply::empty(Status::NoContent)
}

/// The answer to a manifest in a format that is not understood.
pub fn unsupported_content_type() -> (reply: Reply)
    ensures
        reply.status == Status::UnsupportedMediaType,
        reply.body@ == Seq::<char>::empty(),
{
    Reply::empty(Status::UnsupportedMediaType)
}

} // verus!
