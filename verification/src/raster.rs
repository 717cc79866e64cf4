//! The picture of one tile: a square of RGB pixels, row after row.

use vstd::prelude::*;
use crate::color::{color, color_of, Rgb};

verus! {

/// One of the three bytes of a pixel: 0 is red, 1 green, 2 blue.
pub open spec fn channel(c: Rgb, k: int) -> u8 {
    if k == 0 {
        c.r
    } else if k == 1 {
        c.g
    } else {
        c.b
    }
}

/// The bytes of the picture painted from `counts`: pixel `i` has the colour
/// of `counts[i]` and fills bytes `3 * i` to `3 * i + 2`.
pub open spec fn painted(counts: Seq<u32>) -> Seq<u8> {
    Seq::new(3 * counts.len(), |i: int| channel(color_of(counts[i / 3]), i % 3))
}

/// Whether `counts` can be the escape counts of a picture of this side: one
/// for each pixel, and no more than a raster can hold.
pub open spec fn counts_fit(side: u32, counts: Seq<u32>) -> bool {
    counts.len() == side * side && 3 * counts.len() <= usize::MAX
}

/// The pixel in column `px` of row `py`, read from the bytes of a picture
/// that is `side` pixels wide.
pub open spec fn pixel_at(data: Seq<u8>, side: nat, px: int, py: int) -> Rgb {
    let at = 3 * (py * side + px);
    Rgb { r: data[at], g: data[at + 1], b: data[at + 2] }
}

/// A square picture of `side` by `side` pixels, three bytes each.
pub struct Raster {
    side: u32,
    data: Vec<u8>,
}

impl View for Raster {
    type V = Seq<u8>;

    /// The bytes of the picture, row after row, three for each pixel.
    closed spec fn view(&self) -> Seq<u8> {
        self.data@
    }
}

impl Raster {
    /// A raster holds exactly the bytes of its `side * side` pixels.
    #[verifier::type_invariant]
    pub closed spec fn wf(self) -> bool {
        self.data.len() == 3 * self.side * self.side
    }

    /// The number of pixels in a row, and of rows.
    pub closed spec fn spec_side(&self) -> u32 {
        self.side
    }

    /// The number of pixels in a row, and of rows.
    #[verifier::when_used_as_spec(spec_side)]
    pub fn side(&self) -> (s: u32)
        ensures
            s == self.spec_side(),
            self@.len() == 3 * s * s,
    {
        proof {
            use_type_invariant(self);
        }
        self.side
    }

    /// Paints the picture of `side` by `side` pixels whose escape counts are
    /// `counts`, row after row.  There is no picture where the number of
    /// counts is not `side * side`, or where its bytes would not fit in memory.
    pub fn from_counts(side: u32, counts: &Vec<u32>) -> (r: Option<Raster>)
        ensures
            r is Some <==> counts_fit(side, counts@),
            r matches Some(img) ==> img.side() == side && img@ == painted(counts@),
    {
        let n: usize = counts.len();
        assert((side as u64) * (side as u64) <= u64::MAX) by (nonlinear_arith)
            requires
                side <= u32::MAX,
        ;
        if n as u64 != (side as u64) * (side as u64) {
            return None;
        }
        let total: usize = match n.checked_mul(3) {
            Some(t) => t,
            None => {
                return None;
            },
        };
        let mut data: Vec<u8> = Vec::with_capacity(total);
        let mut i: usize = 0;
        while i < n
            invariant
                i <= n,
                n == counts@.len(),
                3 * n <= usize::MAX,
                data@.len() == 3 * i,
                forall|j: int| 0 <= j < 3 * i ==> data@[j] == painted(counts@)[j],
            decreases n - i,
        {
            let c: Rgb = color(counts[i]);
            data.push(c.r);
            data.push(c.g);
            data.push(c.b);
            i = i + 1;
        }
        assert(data@ =~= painted(counts@));
        assert(3 * n == 3 * side * side) by (nonlinear_arith)
            requires
                n == side * side,
        ;
        Some(Raster { side, data })
    }

    /// The bytes of the picture.
    pub fn as_bytes(&self) -> (bytes: &Vec<u8>)
        ensures
            bytes@ == self@,
    {
        &self.data
    }

    /// Gives up the picture for its bytes.
    pub fn into_bytes(self) -> (bytes: Vec<u8>)
        ensures
            bytes@ == self@,
    {
        self.data
    }

    /// The pixel in column `px` of row `py`, if the picture has one there.
    pub fn pixel(&self, px: u32, py: u32) -> (p: Option<Rgb>)
        ensures
            p is Some <==> px < self.side() && py < self.side(),
            p matches Some(c) ==> c == pixel_at(self@, self.side() as nat, px as int, py as int),
    {
        proof {
            use_type_invariant(self);
        }
        if px >= self.side || py >= self.side {
            return None;
        }
        proof {
            let s: int = self.side as int;
            assert(0 <= py * s && 3 * (py * s + px) + 2 < 3 * s * s) by (nonlinear_arith)
                requires
                    0 <= px < s,
                    0 <= py < s,
            ;
        }
        let row: usize = (py as usize) * (self.side as usize);
        let at: usize = 3 * (row + px as usize);
        Some(Rgb { r: self.data[at], g: self.data[at + 1], b: self.data[at + 2] })
    }
}

/// Every pixel of the painted picture has the colour of its own count: the
/// pixel in column `px` of row `py` shows `counts[py * side + px]`.
pub proof fn lemma_painted_pixel(side: nat, counts: Seq<u32>, px: int, py: int)
    requires
        counts.len() == side * side,
        0 <= px < side,
        0 <= py < side,
    ensures
        0 <= py * side + px < counts.len(),
        pixel_at(painted(counts), side, px, py) == color_of(counts[py * side + px]),
{
    let i: int = py * side + px;
    assert(0 <= i < side * side) by (nonlinear_arith)
        requires
            i == py * side + px,
            0 <= px < side,
            0 <= py < side,
    ;
    assert((3 * i) / 3 == i && (3 * i) % 3 == 0);
    assert((3 * i + 1) / 3 == i && (3 * i + 1) % 3 == 1);
    assert((3 * i + 2) / 3 == i && (3 * i + 2) % 3 == 2);
}

/// Painting is determined by the counts: bytes in which every pixel has the
/// colour of its count are the painted picture, byte for byte.  Two pictures
/// of the same counts are therefore identical.
pub proof fn lemma_painting_unique(side: nat, counts: Seq<u32>, data: Seq<u8>)
    requires
        counts.len() == side * side,
        data.len() == 3 * side * side,
        forall|px: int, py: int|
            0 <= px < side && 0 <= py < side ==> #[trigger] pixel_at(data, side, px, py)
                == color_of(counts[py * side + px]),
    ensures
        data == painted(counts),
{
    assert(3 * side * side == 3 * (side * side)) by (nonlinear_arith);
    assert forall|j: int| 0 <= j < data.len() implies data[j] == painted(counts)[j] by {
        let i: int = j / 3;
        let px: int = i % (side as int);
        let py: int = i / (side as int);
        assert(0 <= i < side * side);
        assert(side > 0) by (nonlinear_arith)
            requires
                0 <= i < side * side,
        ;
        assert(0 <= px < side && 0 <= py < side && py * side + px == i) by (nonlinear_arith)
            requires
                0 <= i < side * side,
                side > 0,
                px == i % (side as int),
                py == i / (side as int),
        ;
        assert(pixel_at(data, side, px, py) == color_of(counts[i]));
    }
    assert(data =~= painted(counts));
}

} // verus!
