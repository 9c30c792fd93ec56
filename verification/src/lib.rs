//! HTTP Basic Authentication gate.
//!
//! Given a fixed allow-list of `"username:password"` credential strings and
//! a list of URL path prefixes ("scopes"), the middleware decides for each
//! incoming request whether to let it pass to the next stage of a request
//! pipeline or to answer it directly with a `401 Unauthorized` response
//! carrying a `WWW-Authenticate: Basic realm=<path>` challenge.
use vstd::prelude::*;

pub mod codec;
pub mod gate;
pub mod header;
pub mod laws;
pub mod scope;

verus! {

pub use crate::gate::AuthMiddleWare;
pub use crate::gate::Decision;
pub use crate::gate::Denial;
pub use crate::gate::GateOutcome;

} // verus!
