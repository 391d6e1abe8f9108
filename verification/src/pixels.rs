//! Reordering of 32-bit pixels: the system hands out icon pixels as
//! blue, green, red, alpha; images are built from red, green, blue, alpha.

use vstd::prelude::*;

verus! {

/// `px` with the first and third byte of every four-byte pixel exchanged.
pub open spec fn swap_red_blue(px: Seq<u8>) -> Seq<u8> {
    Seq::new(
        px.len(),
        |i: int|
            if i % 4 == 0 && i + 2 < px.len() {
                px[i + 2]
            } else if i % 4 == 2 {
                px[i - 2]
            } else {
                px[i]
            },
    )
}

/// Turns blue-green-red-alpha pixels into red-green-blue-alpha pixels in place.
pub fn bgra_to_rgba(pixels: &mut Vec<u8>)
    requires
        old(pixels)@.len() % 4 == 0,
    ensures
        final(pixels)@ == swap_red_blue(old(pixels)@),
{
    let n: usize = pixels.len();
    let mut i: usize = 0;
    while i < n
        invariant
            n == pixels@.len(),
            n == old(pixels)@.len(),
            n % 4 == 0,
            i % 4 == 0,
            i <= n,
            forall|j: int| 0 <= j < i ==> pixels@[j] == #[trigger] swap_red_blue(old(pixels)@)[j],
            forall|j: int| i <= j < n ==> pixels@[j] == #[trigger] old(pixels)@[j],
        decreases n - i,
    {
        assert(i + 4 <= n);
        let b: u8 = pixels[i];
        let r: u8 = pixels[i + 2];
        pixels.set(i, r);
        pixels.set(i + 2, b);
        proof {
            let s = swap_red_blue(old(pixels)@);
            assert(s[i as int] == old(pixels)@[i + 2]);
            assert((i + 1) % 4 == 1);
            assert((i + 2) % 4 == 2);
            assert((i + 3) % 4 == 3);
            assert(s[i + 1] == old(pixels)@[i + 1]);
            assert(s[i + 2] == old(pixels)@[i as int]);
            assert(s[i + 3] == old(pixels)@[i + 3]);
        }
        i = i + 4;
    }
    assert(pixels@ =~= swap_red_blue(old(pixels)@));
}

/// Exchanging red and blue twice gives back the original pixels, and the
/// exchange keeps the length and every green and alpha byte.
pub proof fn lemma_swap_red_blue_involution(px: Seq<u8>)
    requires
        px.len() % 4 == 0,
    ensures
        swap_red_blue(swap_red_blue(px)) == px,
        swap_red_blue(px).len() == px.len(),
        forall|i: int| 0 <= i < px.len() && (i % 4 == 1 || i % 4 == 3) ==> #[trigger] swap_red_blue(px)[i] == px[i],
{
    let once = swap_red_blue(px);
    let twice = swap_red_blue(once);
    assert forall|i: int| 0 <= i < px.len() implies #[trigger] twice[i] == px[i] by {
        if i % 4 == 0 {
            assert(i + 2 < px.len()) by {
                assert(px.len() % 4 == 0);
                assert((px.len() - i) % 4 == 0);
            }
            assert((i + 2) % 4 == 2);
        } else if i % 4 == 2 {
            assert((i - 2) % 4 == 0);
            assert(i - 2 + 2 < px.len());
        }
    }
    assert(twice =~= px);
}

/// The exchange swaps exactly the first and third byte of every whole
/// four-byte pixel, whatever its alpha byte, and keeps the second and fourth.
pub proof fn lemma_swap_red_blue_per_pixel(px: Seq<u8>)
    ensures
        swap_red_blue(px).len() == px.len(),
        forall|k: int|
            0 <= k && 4 * k + 3 < px.len() ==> {
                &&& #[trigger] swap_red_blue(px)[4 * k] == px[4 * k + 2]
                &&& swap_red_blue(px)[4 * k + 1] == px[4 * k + 1]
                &&& swap_red_blue(px)[4 * k + 2] == px[4 * k]
                &&& swap_red_blue(px)[4 * k + 3] == px[4 * k + 3]
            },
{
    assert forall|k: int| 0 <= k && 4 * k + 3 < px.len() implies {
        &&& #[trigger] swap_red_blue(px)[4 * k] == px[4 * k + 2]
        &&& swap_red_blue(px)[4 * k + 1] == px[4 * k + 1]
        &&& swap_red_blue(px)[4 * k + 2] == px[4 * k]
        &&& swap_red_blue(px)[4 * k + 3] == px[4 * k + 3]
    } by {
        assert((4 * k) % 4 == 0);
        assert((4 * k + 1) % 4 == 1);
        assert((4 * k + 2) % 4 == 2);
        assert((4 * k + 3) % 4 == 3);
    }
}

} // verus!
