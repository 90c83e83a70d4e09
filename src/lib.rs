//! A safe, verified core around a native H.264 encoder: parameter agreement
//! between frames and the encoder, the shape of each result, and the
//! end-of-stream draining protocol.
use vstd::prelude::*;

pub mod data;
pub mod encoder;
pub mod error;
pub mod flush;
pub mod image;

pub use data::{Data, Picture};
pub use encoder::{Encoder, Frame, Mismatch, Params};
pub use error::Error;
pub use flush::{Flush, Step};
pub use image::{Encoding, Image, Plane};

verus! {

} // verus!
