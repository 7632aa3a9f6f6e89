use vstd::prelude::*;

verus! {

/// What the capture stage does with one raw payload from the camera.
#[derive(Clone, Copy, Debug, PartialEq, Eq, Structural)]
pub enum PayloadVerdict {
    /// Structurally plausible JPEG: send it on to the decoder.
    Forward,
    /// Dropped: the payload does not start with the Start-Of-Image marker `FF D8`.
    MissingSoi,
    /// Dropped: the payload holds more than one Start-Of-Frame marker `FF C0`.
    MultipleSof,
}

pub open spec fn starts_with_soi(d: Seq<u8>) -> bool {
    d.len() >= 2 && d[0] == 0xFFu8 && d[1] == 0xD8u8
}

/// The two bytes at `i` form an SOF0 marker.
pub open spec fn sof_at(d: Seq<u8>, i: int) -> bool {
    0 <= i && i + 1 < d.len() && d[i] == 0xFFu8 && d[i + 1] == 0xC0u8
}

pub open spec fn has_multiple_sof(d: Seq<u8>) -> bool {
    exists|i: int, j: int| i < j && #[trigger] sof_at(d, i) && #[trigger] sof_at(d, j)
}

pub open spec fn verdict_of(d: Seq<u8>) -> PayloadVerdict {
    if !starts_with_soi(d) {
        PayloadVerdict::MissingSoi
    } else if has_multiple_sof(d) {
        PayloadVerdict::MultipleSof
    } else {
        PayloadVerdict::Forward
    }
}

/// Cheap structural validation of a raw camera payload: it must start with `FF D8`, and a
/// two-byte sliding window over it may meet `FF C0` at most once. The scan stops at the
/// second marker.
pub fn check_payload(data: &[u8]) -> (r: PayloadVerdict)
    ensures
        r == verdict_of(data@),
        r == PayloadVerdict::Forward <==> starts_with_soi(data@) && !has_multiple_sof(data@),
{
    let len: usize = data.len();
    if len < 2 || data[0] != 0xFF || data[1] != 0xD8 {
        return PayloadVerdict::MissingSoi;
    }
    let mut first: Option<usize> = None;
    let mut i: usize = 0;
    while i + 1 < len
        invariant
            len == data@.len(),
            starts_with_soi(data@),
            i + 1 <= len,
            first is None ==> forall|k: int| 0 <= k < i ==> !sof_at(data@, k),
            first matches Some(f) ==> f < i && sof_at(data@, f as int) && forall|k: int|
                0 <= k < i && k != f ==> !sof_at(data@, k),
        decreases len - i,
    {
        if data[i] == 0xFF && data[i + 1] == 0xC0 {
            match first {
                Some(f) => {
                    assert(f < i && sof_at(data@, f as int) && sof_at(data@, i as int));
                    assert(has_multiple_sof(data@));
                    return PayloadVerdict::MultipleSof;
                },
                None => {
                    first = Some(i);
                },
            }
        }
        i = i + 1;
    }
    assert(!has_multiple_sof(data@)) by {
        if has_multiple_sof(data@) {
            let (a, b) = choose|a: int, b: int|
                a < b && #[trigger] sof_at(data@, a) && #[trigger] sof_at(data@, b);
            assert(a < i && b < i);
        }
    }
    PayloadVerdict::Forward
}

} // verus!
