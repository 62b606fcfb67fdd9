//! Streaming and one-shot xxHash digests, with a buffering adapter that only
//! pays for streaming state once the input outgrows a fixed buffer, and keyed
//! secrets ("entropy pools") for the XXH3 family.
#![allow(non_camel_case_types)]

pub mod backend;
pub mod buffered;
pub mod buildhash;
pub mod bytes;
pub mod entropy;
pub mod error;
pub mod primitive;
pub mod secret;
pub mod xxh3;
pub mod xxhash;

pub use buffered::{BufferedHasher, HasherModel, BUFFER_CAPACITY};
pub use buildhash::{RandomStateXXH32, RandomStateXXH3_128, RandomStateXXH3_64, RandomStateXXH64};
pub use entropy::{EntropyPool, ENTROPY_POOL_SIZE, MIN_SECRET_SIZE};
pub use error::{EntropyError, HashError};
pub use primitive::{HashPrimitive, Keying};
pub use secret::SecretRef;
pub use xxh3::{XXH3_128, XXH3_64};
pub use xxhash::{XXH32, XXH32_PIECE, XXH64};
