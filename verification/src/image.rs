//! Decoded images, held as owned pixel buffers.

use vstd::prelude::*;

verus! {

/// An image held as BGRA bytes, converted from the RGBA order decoders
/// produce.
#[derive(Clone, Debug)]
pub struct Image {
    pub width: i32,
    pub height: i32,
    /// Pixel bytes in BGRA order.
    pub data: Vec<u8>,
}

/// The BGRA reordering of RGBA bytes: every four-byte group has its first
/// and third byte swapped; a trailing partial group is dropped.
pub open spec fn spec_bgra_of_rgba(d: Seq<u8>) -> Seq<u8> {
    Seq::new(
        d.len() / 4 * 4,
        |i: int|
            if i % 4 == 0 {
                d[i + 2]
            } else if i % 4 == 2 {
                d[i - 2]
            } else {
                d[i]
            },
    )
}

impl Image {
    /// The image's pixel bytes, in BGRA order.
    pub open spec fn spec_data(&self) -> Seq<u8> {
        self.data@
    }

    /// Builds an image from RGBA bytes, swapping each pixel into BGRA
    /// order; a trailing partial pixel is dropped.
    pub fn load(width: i32, height: i32, data: &[u8]) -> (img: Image)
        ensures
            img.width == width,
            img.height == height,
            img.spec_data() == spec_bgra_of_rgba(data@),
    {
        let n = data.len();
        let whole: usize = n / 4 * 4;
        let mut out: Vec<u8> = Vec::new();
        let mut i: usize = 0;
        while i < whole
            invariant
                i <= whole,
                whole == data@.len() / 4 * 4,
                i % 4 == 0,
                data@.len() <= usize::MAX,
                out@.len() == i,
                forall|j: int| 0 <= j < i ==> out@[j] == spec_bgra_of_rgba(data@)[j],
            decreases whole - i,
        {
            out.push(data[i + 2]);
            out.push(data[i + 1]);
            out.push(data[i]);
            out.push(data[i + 3]);
            i = i + 4;
        }
        proof {
            assert(out@ =~= spec_bgra_of_rgba(data@));
        }
        Image { width, height, data: out }
    }

    /// The pixel bytes, in BGRA order.
    pub fn data(&self) -> (d: &Vec<u8>)
        ensures
            d@ == self.spec_data(),
    {
        &self.data
    }
}

} // verus!
