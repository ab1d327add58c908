//! Interleaving two flat pixel buffers in windows of four bytes.

use vstd::prelude::*;

verus! {

/// Whether the byte at position `p` of the combined buffer is read from the
/// first source. Windows are four bytes wide and alternate, so the first
/// source supplies the lower half of every group of eight.
pub open spec fn from_first(p: int) -> bool {
    p % 8 < 4
}

/// The combined buffer: as long as `first`, each byte taken at its own
/// position from the source whose turn it is.
pub open spec fn interleaved(first: Seq<u8>, second: Seq<u8>) -> Seq<u8> {
    Seq::new(
        first.len(),
        |p: int|
            if from_first(p) {
                first[p]
            } else {
                second[p]
            },
    )
}

/// How long the second source has to be for a first source of `len` bytes:
/// one more than the last position that is read from it. A second source as
/// long as the first always suffices.
pub open spec fn second_needed(len: nat) -> nat {
    if len % 8 > 4 {
        len
    } else {
        (len - len % 8) as nat
    }
}

/// Last index of the window that starts at `stride` in a buffer of `len`
/// bytes: three further on, or the last byte where the buffer ends sooner.
pub open spec fn window_end(stride: int, len: int) -> int {
    if stride + 3 < len {
        stride + 3
    } else {
        len - 1
    }
}

/// Copies the bytes `start..=end` out of `vec`.
pub fn set_rgba(vec: &Vec<u8>, start: usize, end: usize) -> (window: Vec<u8>)
    requires
        start <= end,
        end < vec@.len(),
    ensures
        window@ == vec@.subrange(start as int, end + 1),
{
    let len = vec.len();
    let mut window: Vec<u8> = Vec::with_capacity(end - start + 1);
    let mut k: usize = start;
    while k <= end
        invariant
            start <= k <= end + 1,
            end < len,
            len == vec@.len(),
            window@ == vec@.subrange(start as int, k as int),
        decreases end + 1 - k,
    {
        window.push(vec[k]);
        k += 1;
    }
    window
}

/// Every position of the window that starts at `stride` is read from the
/// same source, the first one exactly if `stride` is divisible by eight.
proof fn lemma_window_positions(stride: int, p: int)
    requires
        0 <= stride,
        stride % 4 == 0,
        stride <= p <= stride + 3,
    ensures
        from_first(p) == (stride % 8 == 0),
{
}

/// A window that is read from the second source ends inside the length
/// that `second_needed` asks for.
proof fn lemma_second_window_fits(stride: int, len: nat)
    requires
        0 <= stride < len,
        stride % 4 == 0,
        stride % 8 != 0,
    ensures
        window_end(stride, len as int) < second_needed(len),
{
}

/// `second_needed` asks for no more and no less than that every position
/// read from the second source lies inside it, and never for more than the
/// length of the first source.
pub proof fn lemma_second_needed(len: nat, second_len: nat)
    ensures
        second_needed(len) <= len,
        second_len >= second_needed(len) <==> (forall|p: int|
            0 <= p < len && !#[trigger] from_first(p) ==> p < second_len),
{
    if second_len < second_needed(len) {
        let last = second_needed(len) - 1;
        assert(0 <= last < len && !from_first(last) && last >= second_len);
    }
}

/// Window by window: the window that starts at a stride divisible by eight
/// holds the bytes of the first source at the same positions, and every
/// other window those of the second source. The window lies inside the
/// source it is read from.
pub proof fn lemma_window_source(first: Seq<u8>, second: Seq<u8>, stride: int)
    requires
        second.len() >= second_needed(first.len()),
        0 <= stride < first.len(),
        stride % 4 == 0,
    ensures
        ({
            let end = window_end(stride, first.len() as int);
            let source = if stride % 8 == 0 {
                first
            } else {
                second
            };
            &&& stride <= end < source.len()
            &&& end < first.len()
            &&& interleaved(first, second).subrange(stride, end + 1) == source.subrange(
                stride,
                end + 1,
            )
        }),
{
    let end = window_end(stride, first.len() as int);
    let source = if stride % 8 == 0 {
        first
    } else {
        second
    };
    if stride % 8 != 0 {
        lemma_second_window_fits(stride, first.len());
    }
    let whole = interleaved(first, second);
    assert forall|k: int| 0 <= k < end + 1 - stride implies #[trigger] whole.subrange(
        stride,
        end + 1,
    )[k] == source.subrange(stride, end + 1)[k] by {
        lemma_window_positions(stride, stride + k);
    }
    assert(whole.subrange(stride, end + 1) =~= source.subrange(stride, end + 1));
}

/// Where two sources of one length are not a whole number of windows long,
/// the last window is shorter than four bytes, and the combined buffer ends
/// as the source of that window does.
pub proof fn lemma_short_final_window(first: Seq<u8>, second: Seq<u8>)
    requires
        first.len() == second.len(),
        first.len() % 4 != 0,
    ensures
        ({
            let len = first.len() as int;
            let stride = len - len % 4;
            let source = if stride % 8 == 0 {
                first
            } else {
                second
            };
            &&& 0 <= stride < len
            &&& window_end(stride, len) == len - 1
            &&& window_end(stride, len) - stride + 1 == len % 4
            &&& len % 4 < 4
            &&& interleaved(first, second).skip(stride) == source.skip(stride)
        }),
{
    let len = first.len() as int;
    let stride = len - len % 4;
    lemma_window_source(first, second, stride);
    let source = if stride % 8 == 0 {
        first
    } else {
        second
    };
    assert(interleaved(first, second).skip(stride) =~= interleaved(first, second).subrange(
        stride,
        len,
    ));
    assert(source.skip(stride) =~= source.subrange(stride, len));
}

/// Builds the combined buffer from two sources. Walks `vec_1` in strides of
/// four; the window at a stride divisible by eight is copied from `vec_1`,
/// every other window from `vec_2`. The last window is cut off where
/// `vec_1` ends.
pub fn alternate_pixels(vec_1: Vec<u8>, vec_2: Vec<u8>) -> (combined: Vec<u8>)
    requires
        vec_2@.len() >= second_needed(vec_1@.len()),
    ensures
        combined@ == interleaved(vec_1@, vec_2@),
        combined@.len() == vec_1@.len(),
{
    let len = vec_1.len();
    let mut combined_data: Vec<u8> = Vec::with_capacity(len);
    let mut i: usize = 0;
    while i < len
        invariant
            len == vec_1@.len(),
            vec_2@.len() >= second_needed(len as nat),
            i <= len,
            i % 4 == 0 || i == len,
            combined_data@ == interleaved(vec_1@, vec_2@).subrange(0, i as int),
        decreases len - i,
    {
        let end = if len - i > 3 {
            i + 3
        } else {
            len - 1
        };
        proof {
            if i % 8 != 0 {
                lemma_second_window_fits(i as int, len as nat);
            }
        }
        let mut window = if i % 8 == 0 {
            set_rgba(&vec_1, i, end)
        } else {
            set_rgba(&vec_2, i, end)
        };
        proof {
            let whole = interleaved(vec_1@, vec_2@);
            assert forall|p: int| i <= p <= end implies whole[p] == #[trigger] window@[p - i] by {
                lemma_window_positions(i as int, p);
            }
            assert(combined_data@ + window@ =~= whole.subrange(0, end + 1));
        }
        combined_data.append(&mut window);
        i = end + 1;
    }
    combined_data
}

} // verus!
