use vstd::prelude::*;

use crate::data::{Data, Picture};
use crate::error::{failed, Error};
use crate::flush::Flush;
use crate::image::{Encoding, Image};

verus! {

/// The parameters the engine settled on when it was opened: every frame
/// submitted must agree with them.
#[derive(Debug, Clone, Copy, PartialEq, Eq, Structural)]
pub struct Params {
    pub width: i32,
    pub height: i32,
    pub encoding: Encoding,
}

/// The first way in which an image disagrees with an encoder's parameters.
#[derive(Debug, Clone, Copy, PartialEq, Eq, Structural)]
pub enum Mismatch {
    Width,
    Height,
    Encoding,
}

/// How `image` disagrees with `params`, checked in the order width, height,
/// encoding; `None` when it agrees on all three.
pub open spec fn mismatch_of(params: Params, image: Image) -> Option<Mismatch> {
    if image.width != params.width {
        Some(Mismatch::Width)
    } else if image.height != params.height {
        Some(Mismatch::Height)
    } else if image.encoding != params.encoding {
        Some(Mismatch::Encoding)
    } else {
        None
    }
}

/// A frame cleared for submission to the engine, with its presentation
/// timestamp.
#[derive(Debug, Clone)]
pub struct Frame {
    pub pts: i64,
    pub image: Image,
}

/// The result of an engine call that hands out bytes: the bytes when the
/// status is not negative, else the failure and nothing else.
pub open spec fn output_of(status: i32, payload: Seq<u8>) -> Option<Seq<u8>> {
    if failed(status) {
        None
    } else {
        Some(payload)
    }
}

/// Gatekeeper between caller frames and the engine.
///
/// It keeps the snapshot of the engine's parameters taken when the engine was
/// opened; the snapshot cannot change afterwards.
#[derive(Debug)]
pub struct Encoder {
    params: Params,
}

impl View for Encoder {
    type V = Params;

    closed spec fn view(&self) -> Params {
        self.params
    }
}

impl Encoder {
    /// An encoder over an opened engine whose parameters are `params`.
    pub fn from_raw(params: Params) -> (r: Encoder)
        ensures
            r@ == params,
    {
        Encoder { params }
    }

    /// Checks `image` against the parameters and, when it agrees, clears it
    /// for submission with timestamp `pts`.
    ///
    /// A disagreement is a misuse by the caller, not an engine failure: no
    /// frame is produced for the engine, and the caller is told which
    /// parameter differs.
    pub fn encode(&self, pts: i64, image: Image) -> (r: Result<Frame, Mismatch>)
        ensures
            match r {
                Ok(frame) => mismatch_of(self@, image) is None && frame.pts == pts
                    && frame.image == image,
                Err(m) => mismatch_of(self@, image) == Some(m),
            },
    {
        if image.width != self.params.width {
            Err(Mismatch::Width)
        } else if image.height != self.params.height {
            Err(Mismatch::Height)
        } else if image.encoding != self.params.encoding {
            Err(Mismatch::Encoding)
        } else {
            Ok(Frame { pts, image })
        }
    }

    /// Clears `image` for submission without looking at it: the caller
    /// vouches that it agrees with the parameters.
    pub fn encode_unchecked(&self, pts: i64, image: Image) -> (r: Frame)
        requires
            mismatch_of(self@, image) is None,
        ensures
            r.pts == pts,
            r.image == image,
    {
        Frame { pts, image }
    }

    /// The result of submitting a frame (or of one drain step): `status` is
    /// what the engine returned, `payload` the bytes it handed out and
    /// `picture` its record of them.
    ///
    /// An empty payload with a status that is not negative means the engine
    /// kept the frame back for now; that is no failure.
    pub fn encoded(status: i32, payload: Vec<u8>, picture: Picture) -> (r: Result<
        (Data, Picture),
        Error,
    >)
        ensures
            match r {
                Ok((data, pic)) => output_of(status, payload@) == Some(data@) && pic == picture,
                Err(_) => output_of(status, payload@) is None,
            },
    {
        if status < 0 {
            Err(Error)
        } else {
            Ok((Data::new(payload), picture))
        }
    }

    /// The result of asking the engine for the stream headers, which go out
    /// before any frame data.
    pub fn headers(status: i32, payload: Vec<u8>) -> (r: Result<Data, Error>)
        ensures
            match r {
                Ok(data) => output_of(status, payload@) == Some(data@),
                Err(_) => output_of(status, payload@) is None,
            },
    {
        if status < 0 {
            Err(Error)
        } else {
            Ok(Data::new(payload))
        }
    }

    /// Ends input: the encoder moves into a drain sequence.
    pub fn flush(self) -> (r: Flush)
        ensures
            r@.params == self@,
            !r@.exhausted,
    {
        Flush::new(self)
    }

    /// The width required of any input image.
    pub fn width(&self) -> (r: i32)
        ensures
            r == self@.width,
    {
        self.params.width
    }

    /// The height required of any input image.
    pub fn height(&self) -> (r: i32)
        ensures
            r == self@.height,
    {
        self.params.height
    }

    /// The pixel format required of any input image.
    pub fn encoding(&self) -> (r: Encoding)
        ensures
            r == self@.encoding,
    {
        self.params.encoding
    }
}

} // verus!
