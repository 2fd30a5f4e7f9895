use vstd::prelude::*;

verus! {

/// A response with a fixed status code and a fixed plain-text body.
#[derive(Debug)]
pub struct FixedReply {
    pub status: u16,
    pub body: String,
}

/// The reply of the built-in fallback handler: 404 with the body "Not Found".
pub fn default_not_found() -> (r: FixedReply)
    ensures
        r.status == 404,
        r.body@ == "Not Found"@,
{
    FixedReply { status: 404, body: "Not Found".to_owned() }
}

/// The reply when the path is known but not under the request's method:
/// 405 with the body "Method Not Allowed".
pub fn not_allowed() -> (r: FixedReply)
    ensures
        r.status == 405,
        r.body@ == "Method Not Allowed"@,
{
    FixedReply { status: 405, body: "Method Not Allowed".to_owned() }
}

} // verus!
