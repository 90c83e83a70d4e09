use vstd::prelude::*;

verus! {

/// Compressed bytes produced by one engine call: stream headers or one
/// access unit.
///
/// The engine overwrites its output buffer on the next call that produces
/// output, so a `Data` holds its own copy of the bytes: nothing a later call
/// does can change what an earlier `Data` holds.
#[derive(Debug, Clone)]
pub struct Data {
    bytes: Vec<u8>,
}

impl View for Data {
    type V = Seq<u8>;

    closed spec fn view(&self) -> Seq<u8> {
        self.bytes@
    }
}

impl Data {
    /// Takes ownership of the bytes of one output.
    pub fn new(bytes: Vec<u8>) -> (r: Data)
        ensures
            r@ == bytes@,
    {
        Data { bytes }
    }

    /// All the bytes.
    pub fn entirely(&self) -> (r: &[u8])
        ensures
            r@ == self@,
    {
        self.bytes.as_slice()
    }

    /// The number of bytes.
    pub fn len(&self) -> (r: usize)
        ensures
            r == self@.len(),
    {
        self.bytes.len()
    }

    /// Whether the call that produced this had nothing to hand out yet.
    pub fn is_empty(&self) -> (r: bool)
        ensures
            r == (self@.len() == 0),
    {
        self.bytes.len() == 0
    }
}

/// What the engine says of one produced access unit, copied out of its
/// output record.
#[derive(Debug, Clone, Copy, PartialEq, Eq, Structural)]
pub struct Picture {
    /// Presentation timestamp.
    pub pts: i64,
    /// Decoding timestamp.
    pub dts: i64,
    /// Whether a decoder can start at this access unit.
    pub keyframe: bool,
    /// The engine's frame type tag (I, P, B and their variants).
    pub kind: i32,
}

impl Picture {
    pub fn new(pts: i64, dts: i64, keyframe: bool, kind: i32) -> (r: Picture)
        ensures
            r == (Picture { pts, dts, keyframe, kind }),
    {
        Picture { pts, dts, keyframe, kind }
    }
}

} // verus!
