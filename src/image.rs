use vstd::prelude::*;

verus! {

/// The engine's pixel-format tag (colorspace and its flags).
#[derive(Debug, Clone, Copy, PartialEq, Eq, Structural)]
pub struct Encoding {
    pub raw: i32,
}

impl Encoding {
    pub fn from_raw(raw: i32) -> (r: Encoding)
        ensures
            r.raw == raw,
    {
        Encoding { raw }
    }

    pub fn into_raw(self) -> (r: i32)
        ensures
            r == self.raw,
    {
        self.raw
    }
}

/// One plane of raw pixel data, with the distance in bytes between rows.
#[derive(Debug, Clone)]
pub struct Plane {
    pub stride: i32,
    pub data: Vec<u8>,
}

/// A raw input frame.
#[derive(Debug, Clone)]
pub struct Image {
    pub width: i32,
    pub height: i32,
    pub encoding: Encoding,
    pub planes: Vec<Plane>,
}

impl Image {
    pub fn new(width: i32, height: i32, encoding: Encoding, planes: Vec<Plane>) -> (r: Image)
        ensures
            r == (Image { width, height, encoding, planes }),
    {
        Image { width, height, encoding, planes }
    }
}

} // verus!
