//! Pixel-format handling of captured frames.
use vstd::prelude::*;

verus! {

/// `data` with the first and third byte of every whole 4-byte pixel swapped;
/// trailing bytes that do not fill a pixel are kept.
pub open spec fn swap_red_blue(data: Seq<u8>) -> Seq<u8> {
    Seq::new(data.len(), |i: int| {
        if i < data.len() - data.len() % 4 && i % 4 == 0 {
            data[i + 2]
        } else if i < data.len() - data.len() % 4 && i % 4 == 2 {
            data[i - 2]
        } else {
            data[i]
        }
    })
}

/// Converts BGRA pixels to RGBA in place.
pub fn convert_bgra_to_rgba(data: &mut [u8])
    ensures
        final(data)@ == swap_red_blue(old(data)@),
{
    let n = data.len();
    let whole = n - n % 4;
    let ghost original = data@;
    let mut i: usize = 0;
    while i < whole
        invariant
            n == data@.len(),
            n == original.len(),
            whole == n - n % 4,
            i % 4 == 0,
            i <= whole,
            forall|j: int| 0 <= j < i ==> #[trigger] data@[j] == swap_red_blue(original)[j],
            forall|j: int| i <= j < n ==> #[trigger] data@[j] == original[j],
        decreases whole - i,
    {
        let b = data[i];
        let r = data[i + 2];
        data[i] = r;
        data[i + 2] = b;
        i = i + 4;
    }
    assert(data@ =~= swap_red_blue(original));
}

/// Converting twice gives back the original bytes.
pub proof fn lemma_swap_red_blue_involution(data: Seq<u8>)
    ensures
        swap_red_blue(swap_red_blue(data)) == data,
{
    assert(swap_red_blue(swap_red_blue(data)) =~= data);
}

} // verus!
