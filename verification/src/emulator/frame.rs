//! The frame buffer that the picture processing unit renders into.

use crate::emulator::ppu::palette::RGBA;
use vstd::prelude::*;

verus! {

/// Number of pixels in one frame.
pub const FRAME_PIXELS: usize = 38400;

/// One frame of RGBA pixels, row by row.
#[derive(Debug, Clone)]
pub struct RgbaFrame(pub Vec<RGBA>);

/// The bytes of a sequence of pixels, each as red, green, blue and alpha.
pub open spec fn rgba_bytes(pixels: Seq<RGBA>) -> Seq<u8>
    decreases pixels.len(),
{
    if pixels.len() == 0 {
        Seq::empty()
    } else {
        let p = pixels.last();
        rgba_bytes(pixels.drop_last()) + seq![p.red, p.green, p.blue, p.alpha]
    }
}

proof fn lemma_rgba_bytes_len(pixels: Seq<RGBA>)
    ensures
        rgba_bytes(pixels).len() == 4 * pixels.len(),
    decreases pixels.len(),
{
    if pixels.len() > 0 {
        lemma_rgba_bytes_len(pixels.drop_last());
    }
}

impl RgbaFrame {
    /// A frame of transparent black pixels.
    pub fn new() -> (r: RgbaFrame)
        ensures
            r.0@.len() == FRAME_PIXELS,
            forall|i: int|
                0 <= i < FRAME_PIXELS ==> r.0@[i] == (RGBA { red: 0, green: 0, blue: 0, alpha: 0 }),
    {
        RgbaFrame(vec![RGBA { red: 0, green: 0, blue: 0, alpha: 0 }; FRAME_PIXELS])
    }

    /// The pixels as bytes: red, green, blue and alpha of each pixel in turn.
    pub fn as_bytes(&self) -> (r: Vec<u8>)
        ensures
            r@ == rgba_bytes(self.0@),
            r@.len() == 4 * self.0@.len(),
    {
        let mut out: Vec<u8> = Vec::new();
        let mut i: usize = 0;
        while i < self.0.len()
            invariant
                i <= self.0@.len(),
                out@ == rgba_bytes(self.0@.subrange(0, i as int)),
            decreases self.0@.len() - i,
        {
            let p = self.0[i];
            out.push(p.red);
            out.push(p.green);
            out.push(p.blue);
            out.push(p.alpha);
            proof {
                let s = self.0@.subrange(0, i + 1);
                assert(s.drop_last() =~= self.0@.subrange(0, i as int));
                assert(s.last() == p);
            }
            i = i + 1;
        }
        assert(self.0@.subrange(0, i as int) =~= self.0@);
        proof {
            lemma_rgba_bytes_len(self.0@);
        }
        out
    }
}

impl Default for RgbaFrame {
    fn default() -> (r: RgbaFrame)
        ensures
            r.0@.len() == FRAME_PIXELS,
    {
        RgbaFrame::new()
    }
}

} // verus!
