use vstd::prelude::*;

verus! {

/// The HTTP status of a response that reports success.
pub const STATUS_OK: u16 = 200;

/// The HTTP status of a response that reports an error of any kind.
pub const STATUS_INTERNAL_SERVER_ERROR: u16 = 500;

/// Turns what the token manager answered into the response of one of the
/// five operations. Its functions stand with the responses they build.
pub struct InternalRouter;

/// Pairs each response with its HTTP status, as the routing layer sends it.
/// Its functions stand with the responses they send.
pub struct Router;

} // verus!
