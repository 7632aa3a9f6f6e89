use vstd::prelude::*;

verus! {

/// Channel layout of an interleaved 8-bit pixel buffer.
#[derive(Clone, Copy, Debug, PartialEq, Eq, Structural)]
pub enum PixelType {
    /// Three bytes per pixel: red, green, blue.
    U8x3,
    /// Four bytes per pixel: red, green, blue, alpha.
    U8x4,
}

impl PixelType {
    pub open spec fn channels(self) -> nat {
        match self {
            PixelType::U8x3 => 3,
            PixelType::U8x4 => 4,
        }
    }

    /// Number of bytes that one pixel occupies.
    pub fn size(&self) -> (r: usize)
        ensures
            r as nat == self.channels(),
    {
        match self {
            PixelType::U8x3 => 3,
            PixelType::U8x4 => 4,
        }
    }
}

/// The RGB bytes of an interleaved buffer: every pixel keeps its first three channels.
pub open spec fn rgb_of(d: Seq<u8>, pt: PixelType) -> Seq<u8> {
    match pt {
        PixelType::U8x3 => d,
        PixelType::U8x4 => Seq::new((d.len() / 4) * 3, |i: int| d[(i / 3) * 4 + i % 3]),
    }
}

/// The RGBA bytes of an interleaved buffer: an RGB pixel gains an opaque alpha of 255.
pub open spec fn rgba_of(d: Seq<u8>, pt: PixelType) -> Seq<u8> {
    match pt {
        PixelType::U8x4 => d,
        PixelType::U8x3 => Seq::new(
            (d.len() / 3) * 4,
            |i: int|
                if i % 4 == 3 {
                    255u8
                } else {
                    d[(i / 4) * 3 + i % 4]
                },
        ),
    }
}

/// The BGRA bytes of an interleaved buffer: red and blue swapped in each RGBA pixel.
pub open spec fn bgra_of(d: Seq<u8>, pt: PixelType) -> Seq<u8> {
    let a = rgba_of(d, pt);
    Seq::new(
        a.len(),
        |i: int|
            if i % 4 == 3 {
                a[i]
            } else {
                a[(i / 4) * 4 + 2 - i % 4]
            },
    )
}

/// An image: `width * height` pixels in row-major order, channels interleaved, no row padding.
#[derive(Clone, Debug)]
pub struct Frame {
    pub width: i32,
    pub height: i32,
    pub pixel_type: PixelType,
    pub data: Vec<u8>,
}

impl Frame {
    /// Positive dimensions and a buffer of exactly `width * height * channels` bytes.
    pub open spec fn wf(&self) -> bool {
        &&& self.width > 0
        &&& self.height > 0
        &&& self.data@.len() == self.width as int * self.height as int
            * self.pixel_type.channels()
    }

    pub open spec fn pixels(&self) -> nat {
        (self.width as int * self.height as int) as nat
    }

    /// A well-formed buffer holds `channels` bytes for each of the frame's pixels.
    pub proof fn lemma_len(&self)
        requires
            self.wf(),
        ensures
            self.data@.len() == self.pixel_type.channels() * self.pixels(),
            self.data@.len() / self.pixel_type.channels() == self.pixels(),
    {
        let a = self.width as int * self.height as int;
        let k = self.pixel_type.channels() as int;
        assert(a > 0) by (nonlinear_arith)
            requires
                self.width > 0,
                self.height > 0,
                a == self.width as int * self.height as int,
        ;
        assert(self.data@.len() == k * a) by (nonlinear_arith)
            requires
                self.data@.len() == a * k,
        ;
        assert((k * a) / k == a) by (nonlinear_arith)
            requires
                k > 0,
        ;
    }

    /// The frame's pixels as packed RGB bytes, alpha dropped.
    pub fn as_rgb(&self) -> (r: Vec<u8>)
        requires
            self.wf(),
        ensures
            r@ == rgb_of(self.data@, self.pixel_type),
            r@.len() == self.pixels() * 3,
    {
        match self.pixel_type {
            PixelType::U8x3 => self.data.clone(),
            PixelType::U8x4 => {
                proof {
                    self.lemma_len();
                }
                let n: usize = self.data.len() / 4;
                let mut rgb: Vec<u8> = Vec::new();
                let mut p: usize = 0;
                while p < n
                    invariant
                        n == self.data@.len() / 4,
                        self.data@.len() == 4 * n,
                        self.data@.len() <= usize::MAX,
                        p <= n,
                        rgb@.len() == 3 * p,
                        forall|q: int, c: int|
                            0 <= q < p && 0 <= c < 3 ==> #[trigger] rgb@[3 * q + c]
                                == self.data@[4 * q + c],
                    decreases n - p,
                {
                    let b: usize = 4 * p;
                    rgb.push(self.data[b]);
                    rgb.push(self.data[b + 1]);
                    rgb.push(self.data[b + 2]);
                    p = p + 1;
                }
                let ghost d = self.data@;
                assert(rgb@ =~= rgb_of(d, PixelType::U8x4)) by {
                    assert forall|i: int| 0 <= i < rgb@.len() implies rgb@[i] == d[(i / 3) * 4
                        + i % 3] by {
                        let q = i / 3;
                        let c = i % 3;
                        assert(i == 3 * q + c);
                        assert(rgb@[3 * q + c] == d[4 * q + c]);
                    }
                }
                rgb
            },
        }
    }

    /// The frame's pixels as packed RGBA bytes; RGB pixels become fully opaque.
    pub fn as_rgba(&self) -> (r: Vec<u8>)
        requires
            self.wf(),
        ensures
            r@ == rgba_of(self.data@, self.pixel_type),
            r@.len() == self.pixels() * 4,
    {
        match self.pixel_type {
            PixelType::U8x4 => self.data.clone(),
            PixelType::U8x3 => {
                proof {
                    self.lemma_len();
                }
                let n: usize = self.data.len() / 3;
                let mut out: Vec<u8> = Vec::new();
                let mut p: usize = 0;
                while p < n
                    invariant
                        n == self.data@.len() / 3,
                        self.data@.len() == 3 * n,
                        self.data@.len() <= usize::MAX,
                        p <= n,
                        out@.len() == 4 * p,
                        forall|q: int, c: int|
                            0 <= q < p && 0 <= c < 3 ==> #[trigger] out@[4 * q + c]
                                == self.data@[3 * q + c],
                        forall|q: int| 0 <= q < p ==> #[trigger] out@[4 * q + 3] == 255,
                    decreases n - p,
                {
                    let b: usize = 3 * p;
                    out.push(self.data[b]);
                    out.push(self.data[b + 1]);
                    out.push(self.data[b + 2]);
                    out.push(255);
                    p = p + 1;
                }
                let ghost d = self.data@;
                assert(out@ =~= rgba_of(d, PixelType::U8x3)) by {
                    assert forall|i: int| 0 <= i < out@.len() implies out@[i] == rgba_of(
                        d,
                        PixelType::U8x3,
                    )[i] by {
                        let q = i / 4;
                        let c = i % 4;
                        assert(i == 4 * q + c);
                        if c == 3 {
                            assert(out@[4 * q + 3] == 255);
                        } else {
                            assert(out@[4 * q + c] == d[3 * q + c]);
                        }
                    }
                }
                out
            },
        }
    }

    /// The frame's pixels as packed BGRA bytes, the layout a virtual output device takes.
    pub fn as_bgra(&self) -> (r: Vec<u8>)
        requires
            self.wf(),
        ensures
            r@ == bgra_of(self.data@, self.pixel_type),
            r@.len() == self.pixels() * 4,
    {
        let rgba = self.as_rgba();
        let n: usize = rgba.len() / 4;
        let mut out: Vec<u8> = Vec::new();
        let mut p: usize = 0;
        while p < n
            invariant
                n == rgba@.len() / 4,
                rgba@.len() == 4 * n,
                rgba@.len() <= usize::MAX,
                p <= n,
                out@.len() == 4 * p,
                forall|q: int, c: int|
                    0 <= q < p && 0 <= c < 4 ==> #[trigger] out@[4 * q + c] == (if c == 3 {
                        rgba@[4 * q + 3]
                    } else {
                        rgba@[4 * q + 2 - c]
                    }),
            decreases n - p,
        {
            let b: usize = 4 * p;
            out.push(rgba[b + 2]);
            out.push(rgba[b + 1]);
            out.push(rgba[b]);
            out.push(rgba[b + 3]);
            p = p + 1;
        }
        let ghost a = rgba@;
        assert forall|i: int| 0 <= i < 4 * n implies out@[i] == bgra_of(self.data@, self.pixel_type)[i] by {
            let q = i / 4;
            let c = i % 4;
            assert(i == 4 * q + c);
            assert(out@[4 * q + c] == (if c == 3 {
                a[4 * q + 3]
            } else {
                a[4 * q + 2 - c]
            }));
        }
        assert(out@ =~= bgra_of(self.data@, self.pixel_type));
        out
    }
}

} // verus!

verus! {

proof fn lemma_rgb_of_rgba(a: Seq<u8>, m: int)
    requires
        m >= 0,
        a.len() == 3 * m,
    ensures
        rgba_of(a, PixelType::U8x3).len() == 4 * m,
        rgb_of(rgba_of(a, PixelType::U8x3), PixelType::U8x4) == a,
        forall|q: int| 0 <= q < m ==> #[trigger] rgba_of(a, PixelType::U8x3)[4 * q + 3] == 255,
{
    let b = rgba_of(a, PixelType::U8x3);
    assert(a.len() / 3 == m);
    assert(b.len() / 4 == m);
    let c = rgb_of(b, PixelType::U8x4);
    assert forall|i: int| 0 <= i < 3 * m implies c[i] == a[i] by {
        let j = (i / 3) * 4 + i % 3;
        assert(j % 4 == i % 3 && j / 4 == i / 3);
    }
    assert(c =~= a);
    assert forall|q: int| 0 <= q < m implies #[trigger] b[4 * q + 3] == 255 by {
        assert((4 * q + 3) % 4 == 3);
    }
}

proof fn lemma_opaque_rgba_of_rgb(d: Seq<u8>, m: int)
    requires
        m >= 0,
        d.len() == 4 * m,
        forall|q: int| 0 <= q < m ==> #[trigger] d[4 * q + 3] == 255,
    ensures
        rgba_of(rgb_of(d, PixelType::U8x4), PixelType::U8x3) == d,
{
    let a = rgb_of(d, PixelType::U8x4);
    assert(d.len() / 4 == m);
    assert(a.len() / 3 == m);
    let b = rgba_of(a, PixelType::U8x3);
    assert forall|i: int| 0 <= i < 4 * m implies b[i] == d[i] by {
        let q = i / 4;
        let k = i % 4;
        assert(i == 4 * q + k);
        if k == 3 {
            assert(d[4 * q + 3] == 255);
        } else {
            let j = q * 3 + k;
            assert(j / 3 == q && j % 3 == k);
        }
    }
    assert(b =~= d);
}

/// Converting a frame to RGB, then to RGBA, then back to RGB gives the same RGB bytes; the
/// RGBA step only adds an alpha of 255. On an RGBA frame, `as_rgba` is the identity, so
/// applying it again changes nothing, and an opaque RGBA frame survives the RGB round trip.
pub proof fn lemma_rgb_rgba_round_trip(f: Frame)
    requires
        f.wf(),
    ensures
        rgb_of(rgba_of(rgb_of(f.data@, f.pixel_type), PixelType::U8x3), PixelType::U8x4)
            == rgb_of(f.data@, f.pixel_type),
        forall|q: int|
            0 <= q < f.pixels() ==> #[trigger] rgba_of(
                rgb_of(f.data@, f.pixel_type),
                PixelType::U8x3,
            )[4 * q + 3] == 255,
        rgba_of(rgba_of(f.data@, f.pixel_type), PixelType::U8x4) == rgba_of(
            f.data@,
            f.pixel_type,
        ),
        f.pixel_type == PixelType::U8x4 ==> rgba_of(f.data@, f.pixel_type) == f.data@,
        f.pixel_type == PixelType::U8x4 && (forall|q: int|
            0 <= q < f.pixels() ==> #[trigger] f.data@[4 * q + 3] == 255) ==> rgba_of(
            rgb_of(f.data@, f.pixel_type),
            PixelType::U8x3,
        ) == f.data@,
{
    f.lemma_len();
    let m = f.pixels() as int;
    let d = f.data@;
    if f.pixel_type == PixelType::U8x4 {
        assert(d.len() / 4 == m);
    }
    lemma_rgb_of_rgba(rgb_of(d, f.pixel_type), m);
    if f.pixel_type == PixelType::U8x4 && (forall|q: int|
        0 <= q < f.pixels() ==> #[trigger] f.data@[4 * q + 3] == 255) {
        lemma_opaque_rgba_of_rgb(d, m);
    }
}

} // verus!
