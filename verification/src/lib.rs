//! Basic tokens: the opaque credential that a client presents before it has
//! logged in, built locally from a client id, a client secret and a length
//! class.
//!
//! [`BasicToken::new`] draws a random seed and builds the token from it;
//! [`BasicToken::from_seed`] is the same construction with the seed given.
//! The digests, the base64 encoding and the random seed come from other
//! crates; what is assumed of each is said where it is called, in [`hash`],
//! [`base64`], [`seed`] and [`text`]. Everything else is verified.

pub mod base64;
pub mod cli;
pub mod hash;
pub mod length;
pub mod seed;
pub mod text;
pub mod token;

pub use length::BasicTokenLength;
pub use token::BasicToken;
