//! In-place editing of a compiled binary image: the region between two
//! occurrences of a marker is overwritten with a new value, padded with
//! spaces to the region's exact length. Used to stamp network credentials
//! into a prebuilt image without recompiling it.

use vstd::prelude::*;
use vstd::string::*;

verus! {

/// Whether `needle` occurs in `b` at position `i`.
pub open spec fn spec_match_at(b: Seq<u8>, needle: Seq<u8>, i: int) -> bool {
    0 <= i && i + needle.len() <= b.len() && b.subrange(i, i + needle.len()) == needle
}

/// The first position at or after `from` where `needle` occurs in `b`.
pub open spec fn spec_first_match(b: Seq<u8>, needle: Seq<u8>, from: int) -> Option<int>
    decreases b.len() + 1 - from when 0 <= from
{
    if from + needle.len() > b.len() {
        None
    } else if b.subrange(from, from + needle.len()) == needle {
        Some(from)
    } else {
        spec_first_match(b, needle, from + 1)
    }
}

/// Where the second marker occurrence lies: the first occurrence strictly
/// after the start of the first one (overlap allowed, as a sliding window
/// search finds it).
pub open spec fn spec_second_match(b: Seq<u8>, needle: Seq<u8>) -> Option<int> {
    match spec_first_match(b, needle, 0) {
        None => None,
        Some(p1) => spec_first_match(b, needle, p1 + 1),
    }
}

/// `v` padded with spaces on the right to `width` bytes.
pub open spec fn spec_padded(v: Seq<u8>, width: int) -> Seq<u8>
    recommends
        v.len() <= width,
{
    v + Seq::new((width - v.len()) as nat, |i: int| 32u8)
}

/// The replacement region and its result: with the first marker ending at
/// `p1 + needle.len()` and the second starting at `p2`, the bytes between are
/// replaced by the padded value.
pub open spec fn spec_replaced(b: Seq<u8>, needle: Seq<u8>, v: Seq<u8>) -> Seq<u8>
    recommends
        spec_first_match(b, needle, 0) is Some,
        spec_second_match(b, needle) is Some,
{
    let p1 = spec_first_match(b, needle, 0).unwrap();
    let p2 = spec_second_match(b, needle).unwrap();
    let start = p1 + needle.len();
    b.take(start) + spec_padded(v, p2 - start) + b.skip(p2)
}

/// The geometry on which replacement is defined: where both marker
/// occurrences exist, they do not overlap, and the value fits the region
/// between them.
pub open spec fn spec_replace_fits(b: Seq<u8>, needle: Seq<u8>, vlen: int) -> bool {
    (spec_first_match(b, needle, 0) is Some && spec_second_match(b, needle) is Some) ==> {
        let p1 = spec_first_match(b, needle, 0).unwrap();
        let p2 = spec_second_match(b, needle).unwrap();
        p2 >= p1 + needle.len() && vlen <= p2 - p1 - needle.len()
    }
}

/// Why a replacement was not performed.
#[derive(Clone, Copy, Debug, PartialEq, Eq, Structural)]
pub enum ReplaceError {
    /// The marker does not occur in the binary at all.
    FirstMarkerNotFound,
    /// The marker occurs only once, so no region is delimited.
    SecondMarkerNotFound,
}

/// Finds the first occurrence of `needle` in `b` at or after `from`.
fn find_from(b: &Vec<u8>, needle: &[u8], from: usize) -> (r: Option<usize>)
    requires
        needle@.len() > 0,
    ensures
        (r matches Some(i) ==> spec_first_match(b@, needle@, from as int) == Some(i as int)
            && i + needle@.len() <= b@.len()),
        (r is None ==> spec_first_match(b@, needle@, from as int) is None),
{
    if needle.len() > b.len() {
        return None;
    }
    let bound = b.len() - needle.len() + 1;
    let mut i: usize = from;
    while i < bound
        invariant
            from <= i,
            needle@.len() > 0,
            bound == b@.len() - needle@.len() + 1,
            spec_first_match(b@, needle@, from as int) == spec_first_match(b@, needle@, i as int),
        decreases bound - i,
    {
        let blen = b.len();
        let mut j: usize = 0;
        while j < needle.len() && b[i + j] == needle[j]
            invariant
                0 <= j <= needle@.len(),
                blen == b@.len(),
                i + needle@.len() <= blen,
                forall|k: int| 0 <= k < j ==> b@[i + k] == needle@[k],
            decreases needle@.len() - j,
        {
            j = j + 1;
        }
        if j == needle.len() {
            proof {
                assert(b@.subrange(i as int, i + needle@.len()) =~= needle@);
            }
            return Some(i);
        }
        proof {
            assert(b@.subrange(i as int, i + needle@.len())[j as int] != needle@[j as int]);
        }
        i = i + 1;
    }
    None
}

/// Replaces the bytes between the first two occurrences of `marker` in
/// `binary` with `new_value`, padded with spaces to the region's length.
/// Succeeds exactly when the marker occurs twice; otherwise the binary is
/// unchanged and the error names the missing occurrence.
pub fn replace_string(binary: &mut Vec<u8>, marker: &str, new_value: &str) -> (r: Result<
    (),
    ReplaceError,
>)
    requires
        marker.spec_bytes().len() > 0,
        spec_replace_fits(old(binary)@, marker.spec_bytes(), new_value.spec_bytes().len() as int),
    ensures
        r is Ok <==> (spec_first_match(old(binary)@, marker.spec_bytes(), 0) is Some
            && spec_second_match(old(binary)@, marker.spec_bytes()) is Some),
        r == Result::<(), ReplaceError>::Err(ReplaceError::FirstMarkerNotFound) <==> spec_first_match(
            old(binary)@,
            marker.spec_bytes(),
            0,
        ) is None,
        r is Ok ==> final(binary)@ == spec_replaced(
            old(binary)@,
            marker.spec_bytes(),
            new_value.spec_bytes(),
        ),
        !(r is Ok) ==> final(binary)@ == old(binary)@,
{
    let needle = marker.as_bytes();
    let p1 = match find_from(binary, needle, 0) {
        Some(p) => p,
        None => {
            return Err(ReplaceError::FirstMarkerNotFound);
        },
    };
    proof {
        assert(p1 + needle@.len() <= binary.len());
    }
    let p2 = match find_from(binary, needle, p1 + 1) {
        Some(p) => p,
        None => {
            return Err(ReplaceError::SecondMarkerNotFound);
        },
    };
    let start = p1 + needle.len();
    let value = new_value.as_bytes();
    let width = p2 - start;
    let mut k: usize = 0;
    while k < width
        invariant
            0 <= k <= width,
            width == p2 - start,
            start == p1 + needle@.len(),
            start + width <= binary@.len(),
            value@.len() <= width,
            value@ == new_value.spec_bytes(),
            binary@.len() == old(binary)@.len(),
            forall|j: int| 0 <= j < start ==> binary@[j] == old(binary)@[j],
            forall|j: int| p2 <= j < binary@.len() ==> binary@[j] == old(binary)@[j],
            forall|j: int|
                0 <= j < k ==> binary@[start + j] == spec_padded(value@, width as int)[j],
            forall|j: int|
                k <= j < width ==> #[trigger] binary@[start + j] == old(binary)@[start + j],
        decreases width - k,
    {
        let byte: u8 = if k < value.len() {
            value[k]
        } else {
            32
        };
        binary[start + k] = byte;
        k = k + 1;
    }
    proof {
        assert(binary@ =~= spec_replaced(old(binary)@, marker.spec_bytes(), new_value.spec_bytes()));
    }
    Ok(())
}

} // verus!
