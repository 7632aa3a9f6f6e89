use vstd::prelude::*;

verus! {

/// Alpha-gated composite of two RGBA buffers: a pixel whose mask alpha is 0 keeps the image's
/// bytes, any other pixel becomes fully transparent black. A trailing partial pixel is dropped.
pub open spec fn blend_of(image: Seq<u8>, mask: Seq<u8>) -> Seq<u8> {
    Seq::new(
        (image.len() / 4) * 4,
        |i: int|
            if mask[(i / 4) * 4 + 3] == 0 {
                image[i]
            } else {
                0u8
            },
    )
}

/// Keeps the image where the mask is transparent and keys out every other pixel.
pub fn blend(image: &[u8], mask: &[u8]) -> (r: Vec<u8>)
    requires
        image@.len() == mask@.len(),
    ensures
        r@ == blend_of(image@, mask@),
        r@.len() == (image@.len() / 4) * 4,
        forall|q: int, c: int|
            0 <= q < image@.len() / 4 && 0 <= c < 4 ==> #[trigger] r@[4 * q + c] == (if mask@[4
                * q + 3] == 0 {
                image@[4 * q + c]
            } else {
                0u8
            }),
{
    let n: usize = image.len() / 4;
    let mut blended: Vec<u8> = Vec::new();
    let mut p: usize = 0;
    while p < n
        invariant
            n == image@.len() / 4,
            image@.len() == mask@.len(),
            image@.len() <= usize::MAX,
            p <= n,
            blended@.len() == 4 * p,
            forall|q: int, c: int|
                0 <= q < p && 0 <= c < 4 ==> #[trigger] blended@[4 * q + c] == (if mask@[4 * q
                    + 3] == 0 {
                    image@[4 * q + c]
                } else {
                    0u8
                }),
        decreases n - p,
    {
        let b: usize = 4 * p;
        if mask[b + 3] == 0 {
            blended.push(image[b]);
            blended.push(image[b + 1]);
            blended.push(image[b + 2]);
            blended.push(image[b + 3]);
        } else {
            blended.push(0);
            blended.push(0);
            blended.push(0);
            blended.push(0);
        }
        p = p + 1;
    }
    assert(blended@ =~= blend_of(image@, mask@)) by {
        assert forall|i: int| 0 <= i < 4 * n implies blended@[i] == blend_of(image@, mask@)[i] by {
            let q = i / 4;
            let c = i % 4;
            assert(i == 4 * q + c);
            assert(blended@[4 * q + c] == (if mask@[4 * q + 3] == 0 {
                image@[4 * q + c]
            } else {
                0u8
            }));
        }
    }
    blended
}

/// Compositing a `w` x `h` RGBA frame against a mask of the same size gives a buffer of the
/// same size in which a pixel keeps its original bytes exactly when the mask marks it as
/// foreground (alpha 0), and is fully transparent otherwise.
pub proof fn lemma_composite_keeps_foreground(image: Seq<u8>, mask: Seq<u8>, w: nat, h: nat)
    requires
        image.len() == w * h * 4,
        mask.len() == w * h * 4,
    ensures
        blend_of(image, mask).len() == w * h * 4,
        forall|q: int, c: int|
            0 <= q < w * h && 0 <= c < 4 ==> #[trigger] blend_of(image, mask)[4 * q + c] == (if mask[4
                * q + 3] == 0 {
                image[4 * q + c]
            } else {
                0u8
            }),
{
    let n = (w * h) as int;
    assert(image.len() == 4 * n);
    assert(image.len() / 4 == n);
    assert forall|q: int, c: int| 0 <= q < n && 0 <= c < 4 implies #[trigger] blend_of(
        image,
        mask,
    )[4 * q + c] == (if mask[4 * q + 3] == 0 {
        image[4 * q + c]
    } else {
        0u8
    }) by {
        assert((4 * q + c) / 4 == q);
    }
}

} // verus!
