//! Byte-buffer pixmaps: premultiplied RGBA pixels, four bytes each.

use vstd::prelude::*;
use crate::color::Color;

verus! {

/// Number of bytes per pixel.
pub const BYTES_PER_PIXEL: usize = 4;

/// The byte length a pixmap of `width` by `height` needs.
pub open spec fn spec_data_len(width: u32, height: u32) -> int {
    width * height * 4
}

/// Whether a width/height pair makes a valid pixmap size: both positive,
/// and the row bytes fit in 31 bits.
pub open spec fn spec_valid_size(width: u32, height: u32) -> bool {
    &&& width > 0
    &&& height > 0
    &&& width * 4 <= i32::MAX
    &&& width * height * 4 <= usize::MAX
}

fn checked_data_len(width: u32, height: u32) -> (r: Option<usize>)
    ensures
        match r {
            Some(n) => spec_valid_size(width, height) && n == spec_data_len(width, height),
            None => !spec_valid_size(width, height),
        },
{
    if width == 0 || height == 0 {
        return None;
    }
    proof {
        assert(width * 4 <= 0xffff_ffff * 4) by (nonlinear_arith)
            requires
                width <= 0xffff_ffff,
        ;
    }
    let row: u64 = (width as u64) * 4;
    if row > i32::MAX as u64 {
        proof {
            assert(!spec_valid_size(width, height));
        }
        return None;
    }
    proof {
        assert(row as int * height as int <= 0x7fff_ffff * 0xffff_ffff as int)
            by (nonlinear_arith)
            requires
                0 <= row <= 0x7fff_ffff,
                height <= 0xffff_ffff,
        ;
    }
    let total: u64 = row * (height as u64);
    if total <= usize::MAX as u64 {
        proof {
            assert(width as int * height as int * 4 == row as int * height as int)
                by (nonlinear_arith)
                requires
                    row == width as int * 4,
            ;
        }
        Some(total as usize)
    } else {
        proof {
            assert(width as int * height as int * 4 == row as int * height as int)
                by (nonlinear_arith)
                requires
                    row == width as int * 4,
            ;
        }
        None
    }
}

/// A read-only view of premultiplied RGBA pixels.
pub struct PixmapRef<'a> {
    data: &'a [u8],
    width: u32,
    height: u32,
}

impl<'a> PixmapRef<'a> {
    /// The bytes backing the view.
    pub closed spec fn spec_data(&self) -> Seq<u8> {
        self.data@
    }

    /// The view's width in pixels.
    pub closed spec fn spec_width(&self) -> u32 {
        self.width
    }

    /// The view's height in pixels.
    pub closed spec fn spec_height(&self) -> u32 {
        self.height
    }

    /// Wraps premultiplied RGBA bytes.  Yields `None` when either dimension
    /// is zero, a row does not fit in 31 bits, or the buffer is shorter
    /// than the size asks for.
    pub fn from_bytes(data: &'a [u8], width: u32, height: u32) -> (r: Option<Self>)
        ensures
            match r {
                Some(p) => spec_valid_size(width, height) && data@.len() >= spec_data_len(
                    width,
                    height,
                ) && p.spec_data() == data@ && p.spec_width() == width && p.spec_height()
                    == height,
                None => !(spec_valid_size(width, height) && data@.len() >= spec_data_len(
                    width,
                    height,
                )),
            },
    {
        match checked_data_len(width, height) {
            Some(n) => {
                if data.len() >= n {
                    Some(PixmapRef { data, width, height })
                } else {
                    None
                }
            },
            None => None,
        }
    }

    /// The view's width in pixels.
    pub fn width(&self) -> (r: u32)
        ensures
            r == self.spec_width(),
    {
        self.width
    }

    /// The view's height in pixels.
    pub fn height(&self) -> (r: u32)
        ensures
            r == self.spec_height(),
    {
        self.height
    }

    /// The bytes backing the view, RGBA order.
    pub fn data(&self) -> (r: &'a [u8])
        ensures
            r@ == self.spec_data(),
    {
        self.data
    }

    /// The pixel at `(x, y)`, or `None` outside the buffer.
    pub fn pixel(&self, x: u32, y: u32) -> (r: Option<Color>)
        ensures
            match r {
                Some(c) => {
                    let off = (y * self.spec_width() + x) * 4;
                    &&& off + 4 <= self.spec_data().len()
                    &&& c.r == self.spec_data()[off]
                    &&& c.g == self.spec_data()[off + 1]
                    &&& c.b == self.spec_data()[off + 2]
                    &&& c.a == self.spec_data()[off + 3]
                },
                None => (y * self.spec_width() + x) * 4 + 4 > self.spec_data().len(),
            },
    {
        proof {
            assert(y as int * self.width as int + x <= 0xffff_ffff * 0xffff_ffff + 0xffff_ffff)
                by (nonlinear_arith)
                requires
                    y <= 0xffff_ffff,
                    x <= 0xffff_ffff,
                    self.width <= 0xffff_ffff,
            ;
        }
        let idx: u64 = (y as u64) * (self.width as u64) + (x as u64);
        let n = self.data.len();
        if idx >= 0x4000_0000_0000_0000 {
            proof {
                assert((y * self.spec_width() + x) * 4 + 4 > self.spec_data().len())
                    by (nonlinear_arith)
                    requires
                        y * self.spec_width() + x >= 0x4000_0000_0000_0000,
                        self.spec_data().len() <= 0xffff_ffff_ffff_ffff,
                ;
            }
            return None;
        }
        let off64: u64 = idx * 4;
        if off64 <= u64::MAX - 4 && off64 + 4 <= n as u64 {
            let off = off64 as usize;
            Some(
                Color {
                    r: *vstd::slice::slice_index_get(self.data, off),
                    g: *vstd::slice::slice_index_get(self.data, off + 1),
                    b: *vstd::slice::slice_index_get(self.data, off + 2),
                    a: *vstd::slice::slice_index_get(self.data, off + 3),
                },
            )
        } else {
            None
        }
    }
}

/// `v` premultiplied by alpha `a`: `v * a / 255`.
pub open spec fn spec_premultiply(v: u8, a: u8) -> int {
    v * a / 255
}

/// An owned buffer of premultiplied RGBA pixels that can be written.
pub struct PixmapMut {
    data: Vec<u8>,
    width: u32,
    height: u32,
}

impl PixmapMut {
    /// The bytes backing the pixmap.
    pub closed spec fn spec_data(&self) -> Seq<u8> {
        self.data@
    }

    /// The pixmap's width in pixels.
    pub closed spec fn spec_width(&self) -> u32 {
        self.width
    }

    /// The pixmap's height in pixels.
    pub closed spec fn spec_height(&self) -> u32 {
        self.height
    }

    /// Takes ownership of premultiplied RGBA bytes.  Yields `None` when
    /// either dimension is zero, a row does not fit in 31 bits, or the
    /// buffer is shorter than the size asks for.
    pub fn from_bytes(data: Vec<u8>, width: u32, height: u32) -> (r: Option<Self>)
        ensures
            match r {
                Some(p) => spec_valid_size(width, height) && data@.len() >= spec_data_len(
                    width,
                    height,
                ) && p.spec_data() == data@ && p.spec_width() == width && p.spec_height()
                    == height,
                None => !(spec_valid_size(width, height) && data@.len() >= spec_data_len(
                    width,
                    height,
                )),
            },
    {
        match checked_data_len(width, height) {
            Some(n) => {
                if data.len() >= n {
                    Some(PixmapMut { data, width, height })
                } else {
                    None
                }
            },
            None => None,
        }
    }

    /// A read-only view of the pixmap.
    pub fn as_ref(&self) -> (r: PixmapRef<'_>)
        ensures
            r.spec_data() == self.spec_data(),
            r.spec_width() == self.spec_width(),
            r.spec_height() == self.spec_height(),
    {
        PixmapRef { data: self.data.as_slice(), width: self.width, height: self.height }
    }

    /// The pixmap's width in pixels.
    pub fn width(&self) -> (r: u32)
        ensures
            r == self.spec_width(),
    {
        self.width
    }

    /// The pixmap's height in pixels.
    pub fn height(&self) -> (r: u32)
        ensures
            r == self.spec_height(),
    {
        self.height
    }

    /// Fills every whole pixel with `color`, premultiplied by its alpha;
    /// trailing bytes that do not make a whole pixel stay.
    pub fn fill(&mut self, color: Color)
        ensures
            final(self).spec_width() == old(self).spec_width(),
            final(self).spec_height() == old(self).spec_height(),
            final(self).spec_data().len() == old(self).spec_data().len(),
            forall|i: int|
                0 <= i < old(self).spec_data().len() / 4 * 4 ==> final(self).spec_data()[i] == (
                if i % 4 == 0 {
                    spec_premultiply(color.r, color.a)
                } else if i % 4 == 1 {
                    spec_premultiply(color.g, color.a)
                } else if i % 4 == 2 {
                    spec_premultiply(color.b, color.a)
                } else {
                    color.a as int
                }),
            forall|i: int|
                old(self).spec_data().len() / 4 * 4 <= i < old(self).spec_data().len()
                    ==> final(self).spec_data()[i] == old(self).spec_data()[i],
    {
        proof {
            lemma_premultiply_bound(color.r, color.a);
            lemma_premultiply_bound(color.g, color.a);
            lemma_premultiply_bound(color.b, color.a);
        }
        let pr: u8 = ((color.r as u32) * (color.a as u32) / 255) as u8;
        let pg: u8 = ((color.g as u32) * (color.a as u32) / 255) as u8;
        let pb: u8 = ((color.b as u32) * (color.a as u32) / 255) as u8;
        let pa: u8 = color.a;
        let whole: usize = self.data.len() / 4 * 4;
        let mut i: usize = 0;
        while i < whole
            invariant
                i % 4 == 0,
                i <= whole,
                whole == self.data@.len() / 4 * 4,
                self.data@.len() == old(self).data@.len(),
                self.width == old(self).width,
                self.height == old(self).height,
                pr == spec_premultiply(color.r, color.a),
                pg == spec_premultiply(color.g, color.a),
                pb == spec_premultiply(color.b, color.a),
                pa == color.a,
                forall|j: int|
                    0 <= j < i ==> self.data@[j] == (if j % 4 == 0 {
                        spec_premultiply(color.r, color.a)
                    } else if j % 4 == 1 {
                        spec_premultiply(color.g, color.a)
                    } else if j % 4 == 2 {
                        spec_premultiply(color.b, color.a)
                    } else {
                        color.a as int
                    }),
                forall|j: int| i <= j < self.data@.len() ==> self.data@[j] == old(self).data@[j],
            decreases whole - i,
        {
            self.data[i] = pr;
            self.data[i + 1] = pg;
            self.data[i + 2] = pb;
            self.data[i + 3] = pa;
            i = i + 4;
        }
    }
}

proof fn lemma_premultiply_bound(v: u8, a: u8)
    ensures
        0 <= v as int * a as int <= 65025,
        v as int * a as int / 255 <= 255,
{
    assert(0 <= v as int * a as int <= 65025) by (nonlinear_arith)
        requires
            v <= 255,
            a <= 255,
    ;
}

} // verus!
