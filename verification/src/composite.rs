//! Alpha compositing: blending translucent pixels over an opaque background,
//! and the channel rearrangements around it.

use vstd::prelude::*;

use crate::color::Rgb;
use crate::pixel::{Channels, PixelBuffer};

verus! {

/// One channel blended over the background: a linear interpolation weighted
/// by the pixel's alpha, rounded to the nearest byte.
pub open spec fn blend_channel(alpha: u8, bg: u8, src: u8) -> u8 {
    ((((255 - alpha) * bg + alpha * src + 127) / 255) as u8)
}

/// The alpha byte of pixel `p` in an RGBA byte sequence.
pub open spec fn alpha_at(data: Seq<u8>, p: int) -> u8 {
    data[4 * p + 3]
}

/// Some pixel of the RGBA byte sequence is not fully opaque.
pub open spec fn spec_has_transparency(data: Seq<u8>) -> bool {
    exists|p: int| 0 <= p && 4 * p + 3 < data.len() && #[trigger] alpha_at(data, p) != 255
}

/// The background channel that pairs with color channel `c`.
pub open spec fn bg_channel(bg: Rgb, c: int) -> u8 {
    if c == 0 {
        bg.r
    } else if c == 1 {
        bg.g
    } else {
        bg.b
    }
}

/// The RGB byte sequence that blending every pixel of the RGBA sequence
/// `data` over the solid background `bg` produces.
pub open spec fn composited(data: Seq<u8>, bg: Rgb) -> Seq<u8> {
    Seq::new(
        (data.len() / 4) * 3,
        |j: int|
            blend_channel(
                data[4 * (j / 3) + 3],
                bg_channel(bg, j % 3),
                data[4 * (j / 3) + (j % 3)],
            ),
    )
}

/// The RGB byte sequence left when the alpha channel of the RGBA sequence
/// `data` is dropped.
pub open spec fn alpha_dropped(data: Seq<u8>) -> Seq<u8> {
    Seq::new((data.len() / 4) * 3, |j: int| data[4 * (j / 3) + (j % 3)])
}

/// The RGBA byte sequence made by giving every pixel of the RGB sequence
/// `data` a fully opaque alpha channel.
pub open spec fn alpha_added(data: Seq<u8>) -> Seq<u8> {
    Seq::new(
        (data.len() / 3) * 4,
        |j: int| if j % 4 == 3 { 255u8 } else { data[3 * (j / 4) + (j % 4)] },
    )
}

/// Exact blending of one channel; see `blend_channel`.
fn blend(alpha: u8, bg: u8, src: u8) -> (r: u8)
    ensures
        r == blend_channel(alpha, bg, src),
{
    let a = alpha as u32;
    let b = bg as u32;
    let s = src as u32;
    proof {
        assert((255 - a) * b + a * s <= 255 * 255) by (nonlinear_arith)
            requires
                a <= 255,
                b <= 255,
                s <= 255,
        ;
    }
    (((255 - a) * b + a * s + 127) / 255) as u8
}

impl PixelBuffer {
    /// Whether any pixel of this RGBA buffer is less than fully opaque.
    pub fn has_transparency(&self) -> (r: bool)
        requires
            self.wf(),
            self.channels == Channels::Rgba,
        ensures
            r == spec_has_transparency(self.data@),
    {
        let len = self.data.len();
        let n = len / 4;
        let mut p: usize = 0;
        while p < n
            invariant
                n == self.data@.len() / 4,
                4 * n == self.data@.len(),
                self.data@.len() == len,
                p <= n,
                forall|q: int| 0 <= q < p ==> #[trigger] alpha_at(self.data@, q) == 255,
            decreases n - p,
        {
            if self.data[4 * p + 3] < 255 {
                proof {
                    assert(alpha_at(self.data@, p as int) != 255);
                }
                return true;
            }
            p += 1;
        }
        proof {
            assert forall|q: int| 0 <= q && 4 * q + 3 < self.data@.len() implies #[trigger] alpha_at(
                self.data@,
                q,
            ) == 255 by {
                assert(q < n);
            }
        }
        false
    }

    /// Blend this RGBA buffer over the solid background `bg`, producing an
    /// opaque RGB buffer of the same dimensions.
    pub fn composite_over(&self, bg: Rgb) -> (r: PixelBuffer)
        requires
            self.wf(),
            self.channels == Channels::Rgba,
        ensures
            r.wf(),
            r.width == self.width,
            r.height == self.height,
            r.channels == Channels::Rgb,
            r.data@ == composited(self.data@, bg),
    {
        let len = self.data.len();
        let n = len / 4;
        let mut out: Vec<u8> = Vec::new();
        let mut p: usize = 0;
        while p < n
            invariant
                self.wf(),
                self.channels == Channels::Rgba,
                n == self.data@.len() / 4,
                4 * n == self.data@.len(),
                self.data@.len() == len,
                p <= n,
                out@.len() == 3 * p,
                forall|j: int| 0 <= j < out@.len() ==> out@[j] == composited(self.data@, bg)[j],
            decreases n - p,
        {
            let alpha = self.data[4 * p + 3];
            let r0 = blend(alpha, bg.r, self.data[4 * p]);
            let g0 = blend(alpha, bg.g, self.data[4 * p + 1]);
            let b0 = blend(alpha, bg.b, self.data[4 * p + 2]);
            out.push(r0);
            out.push(g0);
            out.push(b0);
            proof {
                let data = self.data@;
                let c = composited(data, bg);
                let q = p as int;
                assert((3 * q) / 3 == q && (3 * q) % 3 == 0);
                assert((3 * q + 1) / 3 == q && (3 * q + 1) % 3 == 1);
                assert((3 * q + 2) / 3 == q && (3 * q + 2) % 3 == 2);
                assert(out@[3 * q] == c[3 * q]);
                assert(out@[3 * q + 1] == c[3 * q + 1]);
                assert(out@[3 * q + 2] == c[3 * q + 2]);
            }
            p += 1;
        }
        let r = PixelBuffer {
            width: self.width,
            height: self.height,
            channels: Channels::Rgb,
            data: out,
        };
        proof {
            assert(r.data@ =~= composited(self.data@, bg));
        }
        r
    }

    /// Drop the alpha channel of this RGBA buffer, keeping the color
    /// channels of every pixel unchanged.
    pub fn drop_alpha(&self) -> (r: PixelBuffer)
        requires
            self.wf(),
            self.channels == Channels::Rgba,
        ensures
            r.wf(),
            r.width == self.width,
            r.height == self.height,
            r.channels == Channels::Rgb,
            r.data@ == alpha_dropped(self.data@),
    {
        let len = self.data.len();
        let n = len / 4;
        let mut out: Vec<u8> = Vec::new();
        let mut p: usize = 0;
        while p < n
            invariant
                self.wf(),
                self.channels == Channels::Rgba,
                n == self.data@.len() / 4,
                4 * n == self.data@.len(),
                self.data@.len() == len,
                p <= n,
                out@.len() == 3 * p,
                forall|j: int| 0 <= j < out@.len() ==> out@[j] == alpha_dropped(self.data@)[j],
            decreases n - p,
        {
            out.push(self.data[4 * p]);
            out.push(self.data[4 * p + 1]);
            out.push(self.data[4 * p + 2]);
            proof {
                let d = alpha_dropped(self.data@);
                let q = p as int;
                assert((3 * q) / 3 == q && (3 * q) % 3 == 0);
                assert((3 * q + 1) / 3 == q && (3 * q + 1) % 3 == 1);
                assert((3 * q + 2) / 3 == q && (3 * q + 2) % 3 == 2);
                assert(out@[3 * q] == d[3 * q]);
                assert(out@[3 * q + 1] == d[3 * q + 1]);
                assert(out@[3 * q + 2] == d[3 * q + 2]);
            }
            p += 1;
        }
        let r = PixelBuffer {
            width: self.width,
            height: self.height,
            channels: Channels::Rgb,
            data: out,
        };
        proof {
            assert(r.data@ =~= alpha_dropped(self.data@));
        }
        r
    }

    /// Give every pixel of this RGB buffer a fully opaque alpha channel.
    pub fn add_alpha(&self) -> (r: PixelBuffer)
        requires
            self.wf(),
            self.channels == Channels::Rgb,
        ensures
            r.wf(),
            r.width == self.width,
            r.height == self.height,
            r.channels == Channels::Rgba,
            r.data@ == alpha_added(self.data@),
    {
        let len = self.data.len();
        let n = len / 3;
        let mut out: Vec<u8> = Vec::new();
        let mut p: usize = 0;
        while p < n
            invariant
                self.wf(),
                self.channels == Channels::Rgb,
                n == self.data@.len() / 3,
                3 * n == self.data@.len(),
                self.data@.len() == len,
                p <= n,
                out@.len() == 4 * p,
                forall|j: int| 0 <= j < out@.len() ==> out@[j] == alpha_added(self.data@)[j],
            decreases n - p,
        {
            out.push(self.data[3 * p]);
            out.push(self.data[3 * p + 1]);
            out.push(self.data[3 * p + 2]);
            out.push(255);
            proof {
                let d = alpha_added(self.data@);
                let q = p as int;
                assert((4 * q) / 4 == q && (4 * q) % 4 == 0);
                assert((4 * q + 1) / 4 == q && (4 * q + 1) % 4 == 1);
                assert((4 * q + 2) / 4 == q && (4 * q + 2) % 4 == 2);
                assert((4 * q + 3) / 4 == q && (4 * q + 3) % 4 == 3);
                assert(out@[4 * q] == d[4 * q]);
                assert(out@[4 * q + 1] == d[4 * q + 1]);
                assert(out@[4 * q + 2] == d[4 * q + 2]);
                assert(out@[4 * q + 3] == d[4 * q + 3]);
            }
            p += 1;
        }
        let r = PixelBuffer {
            width: self.width,
            height: self.height,
            channels: Channels::Rgba,
            data: out,
        };
        proof {
            assert(r.data@ =~= alpha_added(self.data@));
        }
        r
    }
}

/// Blending a fully opaque channel returns the source value unchanged,
/// whatever the background.
pub proof fn lemma_blend_opaque(bg: u8, src: u8)
    ensures
        blend_channel(255, bg, src) == src,
{
}

/// Blending a fully transparent channel returns the background value
/// exactly, whatever the source.
pub proof fn lemma_blend_transparent(bg: u8, src: u8)
    ensures
        blend_channel(0, bg, src) == bg,
{
}

/// At alpha 128 the blended value sits within one of the linear midpoint of
/// background and source: twice the result differs from their sum by at
/// most two.
pub proof fn lemma_blend_half_midpoint(bg: u8, src: u8)
    ensures
        bg + src - 2 <= 2 * blend_channel(128, bg, src) <= bg + src + 2,
{
    let v = (255 - 128) * bg + 128 * src + 127;
    assert(255 * (v / 255) <= v < 255 * (v / 255) + 255) by (nonlinear_arith);
    assert(v / 255 <= 255);
}

/// Giving every pixel an opaque alpha channel and dropping it again
/// returns the RGB bytes unchanged.
pub proof fn lemma_add_then_drop_alpha(data: Seq<u8>)
    requires
        data.len() % 3 == 0,
    ensures
        alpha_dropped(alpha_added(data)) == data,
{
    let a = alpha_added(data);
    let d = alpha_dropped(a);
    assert(a.len() == (data.len() / 3) * 4);
    assert(d.len() == data.len());
    assert forall|j: int| 0 <= j < d.len() implies d[j] == data[j] by {
        let k = 4 * (j / 3) + (j % 3);
        assert(0 <= k < a.len());
        assert(k % 4 == j % 3 && k / 4 == j / 3);
        assert(a[k] == data[3 * (k / 4) + (k % 4)]);
        assert(3 * (j / 3) + (j % 3) == j);
    }
    assert(d =~= data);
}

/// Compositing a fully opaque buffer over any background equals dropping
/// the alpha channel: the background never tints opaque pixels.
pub proof fn lemma_composite_opaque_is_drop_alpha(data: Seq<u8>, bg: Rgb)
    requires
        !spec_has_transparency(data),
    ensures
        composited(data, bg) == alpha_dropped(data),
{
    let c = composited(data, bg);
    let d = alpha_dropped(data);
    assert forall|j: int| 0 <= j < c.len() implies c[j] == d[j] by {
        let p = j / 3;
        assert(0 <= p && 4 * p + 3 < data.len());
        assert(alpha_at(data, p) == 255);
        assert(data[4 * (j / 3) + 3] == 255);
        lemma_blend_opaque(bg_channel(bg, j % 3), data[4 * (j / 3) + (j % 3)]);
    }
    assert(c =~= d);
}

} // verus!
