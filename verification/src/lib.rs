//! Lifecycle of a client-submitted "declare" transaction: from its broadcast
//! form to a canonical, chain-binding transaction hash and an execution-ready
//! internal representation.
//!
//! The numeric atom throughout is a STARK prime-field element ([`felt::Felt`]).
//! The canonical transaction hash is a domain-separated, order-sensitive fold
//! over field elements ([`hash`]); structural rules tied to the declared
//! transaction version are enforced by [`version`] before an execution-ready
//! object is assembled ([`transaction`]).

pub mod error;
pub mod external;
pub mod felt;
pub mod hash;
pub mod transaction;
pub mod version;
