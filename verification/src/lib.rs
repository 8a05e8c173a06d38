//! SULID: a 128-bit, lexicographically sortable unique identifier that embeds
//! a millisecond timestamp, a random component, and a worker identity.
//!
//! Two field layouts exist, chosen at construction time:
//!
//! * V1: `timestamp(48) | random(70) | data_center_id(5) | machine_id(5)`
//! * V2: `timestamp(48) | random(70) | worker_id(10)`
//!
//! The canonical text form is a fixed-length Crockford Base32 string of 26
//! characters, delegated to the `ulid` crate's codec.

pub mod codec;
pub mod generator;
pub mod sulid;

pub use crate::codec::DecodeError;
pub use crate::codec::ULID_LEN;
pub use crate::generator::SulidGenerator;
pub use crate::generator::Version;
pub use crate::sulid::Sulid;
