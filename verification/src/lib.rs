//! Client-side logic of the SMDP dictionary protocol spoken by Cryomech
//! compressor controllers.
//!
//! The crate holds everything that decides or computes: how a dictionary
//! request is laid out, how it is fitted to the two frame shapes, how serial
//! numbers are handed out, how a reply is judged and decoded, and what each
//! register means. It performs no I/O. A driver writes the frames that the
//! session hands out, reads the replies, and feeds them back in.

pub mod device;
pub mod error;
pub mod api;
pub mod packet;
pub mod registers;

pub use api::CryomechApiSmdp;
pub use api::CryomechApiSmdpBuilder;
pub use api::SmdpVersion;
pub use error::Error;
