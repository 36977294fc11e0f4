//! Response resolution and pagination core of a document-database REST client.
//!
//! - `errors`: the closed error taxonomy and the decisions that turn a resolved
//!   HTTP exchange into a success value or a classified error.
//! - `continuation`: a pull-based engine that exposes a token-paginated result
//!   set as one lazy sequence of items.
//! - `traversal`: selection of exactly one node out of the matches of a path.

pub mod continuation;
pub mod errors;
pub mod traversal;
