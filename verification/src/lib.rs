//! A byte-pair-encoding tokenizer front end: resolves a named model profile
//! to its shared vocabulary store and exposes `encode`, `decode` and `count`
//! over it, with contracts for profile resolution, token-range checking,
//! count/encode consistency and the encode/decode round trip.

pub mod profile;
pub mod tokenizer;

pub use profile::Profile;
pub use profile::UnknownProfile;
pub use tokenizer::Tokenizer;
