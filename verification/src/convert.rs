//! Pure pixel-format conversion from packed YUYV422 to interleaved RGB24.
//!
//! Four source bytes `Y0 U Y1 V` encode two horizontal pixels that share one
//! chroma sample. Each pixel is converted with the BT.601 weights, written
//! here in thousandths so the whole computation stays in integers:
//!
//! ```text
//! R = clamp(round((1164*c           + 1596*v) / 1000), 0, 255)
//! G = clamp(round((1164*c - 392*u  -  813*v) / 1000), 0, 255)
//! B = clamp(round((1164*c + 2017*u         ) / 1000), 0, 255)
//! ```
//!
//! with `c = Y - 16`, `u = U - 128`, `v = V - 128`.

use vstd::prelude::*;

verus! {

/// Clamps a mathematical integer into the byte range 0..=255.
pub open spec fn clamp_255(x: int) -> int {
    if x < 0 {
        0
    } else if x > 255 {
        255
    } else {
        x
    }
}

/// Rounds a count of thousandths to the nearest whole number, halves away
/// from zero.
pub open spec fn round_milli(n: int) -> int {
    if n >= 0 {
        (n + 500) / 1000
    } else {
        -((-n + 500) / 1000)
    }
}

/// The red channel for luma excess `c = Y - 16` and chroma offset
/// `v = V - 128`.
pub open spec fn red_channel(c: int, v: int) -> int {
    clamp_255(round_milli(1164 * c + 1596 * v))
}

/// The green channel for luma excess `c` and chroma offsets `u`, `v`.
pub open spec fn green_channel(c: int, u: int, v: int) -> int {
    clamp_255(round_milli(1164 * c - 392 * u - 813 * v))
}

/// The blue channel for luma excess `c` and chroma offset `u = U - 128`.
pub open spec fn blue_channel(c: int, u: int) -> int {
    clamp_255(round_milli(1164 * c + 2017 * u))
}

/// The six RGB bytes produced for pixel pair `k` of a YUYV source.
pub open spec fn pair_rgb(src: Seq<u8>, k: int) -> Seq<u8> {
    let y0 = src[4 * k] as int - 16;
    let u = src[4 * k + 1] as int - 128;
    let y1 = src[4 * k + 2] as int - 16;
    let v = src[4 * k + 3] as int - 128;
    seq![
        red_channel(y0, v) as u8,
        green_channel(y0, u, v) as u8,
        blue_channel(y0, u) as u8,
        red_channel(y1, v) as u8,
        green_channel(y1, u, v) as u8,
        blue_channel(y1, u) as u8,
    ]
}

/// How many pixel pairs a conversion processes: it stops at whichever of
/// source (four bytes per pair) and destination (six bytes per pair) is
/// exhausted first, so a partial final pair is dropped rather than overrun.
pub open spec fn pairs_converted(src_len: int, dest_len: int) -> int {
    if src_len / 4 <= dest_len / 6 {
        src_len / 4
    } else {
        dest_len / 6
    }
}

/// The destination contents after an in-place conversion: the first
/// `6 * pairs_converted` bytes hold the converted pixels, the rest keep
/// their previous values.
pub open spec fn rgb_overlay(src: Seq<u8>, dest: Seq<u8>) -> Seq<u8> {
    Seq::new(
        dest.len(),
        |m: int|
            if m < 6 * pairs_converted(src.len() as int, dest.len() as int) {
                pair_rgb(src, m / 6)[m % 6]
            } else {
                dest[m]
            },
    )
}

/// The full RGB image of a YUYV byte sequence: six output bytes for each
/// complete four-byte pixel pair, a trailing partial pair dropped.
pub open spec fn rgb_frame(src: Seq<u8>) -> Seq<u8> {
    Seq::new((6 * (src.len() as int / 4)) as nat, |m: int| pair_rgb(src, m / 6)[m % 6])
}

/// Every converted channel value lies in the byte range.
pub proof fn lemma_channel_in_range(c: int, u: int, v: int)
    ensures
        0 <= red_channel(c, v) <= 255,
        0 <= green_channel(c, u, v) <= 255,
        0 <= blue_channel(c, u) <= 255,
{
}

/// A uniform mid-gray pixel pair (Y = 128, U = 128, V = 128) converts to a
/// uniform gray RGB pixel pair: all channels agree on the same value.
pub proof fn lemma_mid_gray_uniform(src: Seq<u8>, k: int)
    requires
        0 <= k,
        4 * k + 3 < src.len(),
        src[4 * k] == 128u8,
        src[4 * k + 1] == 128u8,
        src[4 * k + 2] == 128u8,
        src[4 * k + 3] == 128u8,
    ensures
        pair_rgb(src, k) =~= seq![130u8, 130u8, 130u8, 130u8, 130u8, 130u8],
{
}

/// Rounds a signed count of thousandths to the nearest byte value, clamping
/// into 0..=255.
fn milli_to_byte(n: i32) -> (r: u8)
    requires
        -600_000 <= n <= 600_000,
    ensures
        r as int == clamp_255(round_milli(n as int)),
{
    if n >= 0 {
        let q: u32 = (n as u32 + 500) / 1000;
        if q > 255 {
            255
        } else {
            q as u8
        }
    } else {
        0
    }
}

/// Converts a raw YUYV422 byte sequence into an RGB24 destination buffer in
/// place, stopping as soon as fewer than four source bytes or fewer than six
/// destination bytes remain.
pub fn yuyv422_to_rgb24(src: &[u8], dest: &mut Vec<u8>)
    ensures
        final(dest)@.len() == old(dest)@.len(),
        final(dest)@ == rgb_overlay(src@, old(dest)@),
{
    let ghost dest0 = dest@;
    let ghost total = pairs_converted(src@.len() as int, dest0.len() as int);
    let mut i: usize = 0;
    let mut j: usize = 0;
    let ghost mut p: int = 0;
    while src.len() - i > 3 && dest.len() - j > 5
        invariant
            0 <= p <= total,
            total == pairs_converted(src@.len() as int, dest0.len() as int),
            i == 4 * p,
            j == 6 * p,
            i <= src@.len(),
            j <= dest0.len(),
            dest@.len() == dest0.len(),
            forall|m: int| 0 <= m < 6 * p ==> #[trigger] dest@[m] == pair_rgb(src@, m / 6)[m % 6],
            forall|m: int| 6 * p <= m < dest0.len() ==> #[trigger] dest@[m] == dest0[m],
        decreases src@.len() - i,
    {
        let y0 = src[i] as i32 - 16;
        let u = src[i + 1] as i32 - 128;
        let y1 = src[i + 2] as i32 - 16;
        let v = src[i + 3] as i32 - 128;

        let r0 = milli_to_byte(1164 * y0 + 1596 * v);
        let g0 = milli_to_byte(1164 * y0 - 392 * u - 813 * v);
        let b0 = milli_to_byte(1164 * y0 + 2017 * u);
        let r1 = milli_to_byte(1164 * y1 + 1596 * v);
        let g1 = milli_to_byte(1164 * y1 - 392 * u - 813 * v);
        let b1 = milli_to_byte(1164 * y1 + 2017 * u);

        dest[j] = r0;
        dest[j + 1] = g0;
        dest[j + 2] = b0;
        dest[j + 3] = r1;
        dest[j + 4] = g1;
        dest[j + 5] = b1;

        i = i + 4;
        j = j + 6;
        proof {
            p = p + 1;
            assert forall|m: int| 0 <= m < 6 * p implies #[trigger] dest@[m] == pair_rgb(
                src@,
                m / 6,
            )[m % 6] by {
                if 6 * (p - 1) <= m {
                    assert(m / 6 == p - 1);
                    assert(m % 6 == m - 6 * (p - 1));
                }
            }
        }
    }
    proof {
        assert(p == total);
        assert(dest@ =~= rgb_overlay(src@, dest0));
    }
}

/// Allocates a zero-filled byte buffer of the given length.
pub fn alloc_frame(len: usize) -> (r: Vec<u8>)
    ensures
        r@ =~= Seq::new(len as nat, |m: int| 0u8),
{
    let mut r: Vec<u8> = Vec::new();
    while r.len() < len
        invariant
            r@.len() <= len,
            forall|m: int| 0 <= m < r@.len() ==> #[trigger] r@[m] == 0u8,
        decreases len - r@.len(),
    {
        r.push(0u8);
    }
    r
}

/// Converts a whole YUYV frame into a freshly allocated RGB buffer sized
/// exactly for the complete pixel pairs of the source.
pub fn yuyv_to_rgb(src: &[u8]) -> (r: Vec<u8>)
    requires
        6 * (src@.len() as int / 4) <= usize::MAX,
    ensures
        r@.len() == 6 * (src@.len() as int / 4),
        r@ == rgb_frame(src@),
{
    let out_len: usize = src.len() / 4 * 6;
    let mut dest = alloc_frame(out_len);
    yuyv422_to_rgb24(src, &mut dest);
    proof {
        assert(dest@ =~= rgb_frame(src@));
    }
    dest
}

} // verus!
