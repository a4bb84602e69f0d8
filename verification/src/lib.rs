//! Identity allocation for a multi-party session: typed identifiers for
//! shells and users, a counter that mints them without collision, and a
//! generator for cryptographically strong alphanumeric tokens.

pub mod counter;
pub mod ids;
mod text;
pub mod token;

pub use counter::IdCounter;
pub use ids::{Sid, Uid};
pub use token::rand_alphanumeric;
