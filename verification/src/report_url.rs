//! A fixed-capacity byte buffer for building the report URL on the embedded
//! reporting client, where no allocator-backed growth is wanted: writes past
//! the capacity are silently truncated.

use vstd::prelude::*;
use vstd::string::*;
use vstd::utf8::{decode_utf8, valid_utf8};

verus! {

/// The fixed capacity of a [`ReportUrl`] buffer, in bytes.
pub const REPORT_URL_CAPACITY: usize = 1024;

/// A URL under construction: at most [`REPORT_URL_CAPACITY`] bytes, written
/// front to back.
pub struct ReportUrl {
    buf: Vec<u8>,
}

impl View for ReportUrl {
    type V = Seq<u8>;

    closed spec fn view(&self) -> Seq<u8> {
        self.buf@
    }
}

/// Relies on `core::str::from_utf8`: it succeeds exactly on a valid UTF-8
/// byte sequence and returns the string reading those bytes, the characters
/// `decode_utf8` describes. The precondition keeps the `unwrap` from
/// panicking.
#[verifier::external_body]
fn utf8_str(bytes: &Vec<u8>) -> (r: String)
    requires
        valid_utf8(bytes@),
    ensures
        r@ == decode_utf8(bytes@),
{
    core::str::from_utf8(bytes.as_slice()).unwrap().to_owned()
}

impl ReportUrl {
    /// An empty buffer.
    pub fn new() -> (r: ReportUrl)
        ensures
            r@ =~= Seq::<u8>::empty(),
    {
        ReportUrl { buf: Vec::new() }
    }

    /// How many bytes the buffer can ever hold.
    pub fn capacity(&self) -> (r: usize)
        ensures
            r == REPORT_URL_CAPACITY,
    {
        REPORT_URL_CAPACITY
    }

    /// How many bytes have been written.
    pub fn len(&self) -> (r: usize)
        ensures
            r == self@.len(),
    {
        self.buf.len()
    }

    /// Appends the bytes of `s`, truncating at the capacity: exactly the
    /// bytes that fit are kept, the rest are dropped.
    pub fn write_str(&mut self, s: &str)
        requires
            old(self)@.len() <= REPORT_URL_CAPACITY,
        ensures
            final(self)@ == old(self)@ + s.spec_bytes().take(
                min_int(
                    REPORT_URL_CAPACITY - old(self)@.len(),
                    s.spec_bytes().len() as int,
                ),
            ),
    {
        let bytes = s.as_bytes();
        let mut i: usize = 0;
        while i < bytes.len() && self.buf.len() < REPORT_URL_CAPACITY
            invariant
                0 <= i <= bytes@.len(),
                bytes@ == s.spec_bytes(),
                old(self)@.len() + i >= self.buf@.len(),
                self.buf@.len() <= REPORT_URL_CAPACITY,
                self.buf@ == old(self)@ + bytes@.take(
                    min_int(REPORT_URL_CAPACITY - old(self)@.len(), i as int),
                ),
            decreases bytes@.len() - i,
        {
            let b = bytes[i];
            self.buf.push(b);
            proof {
                assert(bytes@.take(min_int(REPORT_URL_CAPACITY - old(self)@.len(), i + 1))
                    =~= bytes@.take(min_int(REPORT_URL_CAPACITY - old(self)@.len(), i as int)).push(
                    b,
                ));
                assert(self.buf@ =~= old(self)@ + bytes@.take(
                    min_int(REPORT_URL_CAPACITY - old(self)@.len(), i + 1),
                ));
            }
            i = i + 1;
        }
        proof {
            if i == bytes@.len() {
                assert(bytes@.take(min_int(REPORT_URL_CAPACITY - old(self)@.len(), i as int))
                    =~= bytes@.take(
                    min_int(REPORT_URL_CAPACITY - old(self)@.len(), bytes@.len() as int),
                ));
            } else {
                assert(self.buf@.len() == REPORT_URL_CAPACITY);
                assert(bytes@.take(min_int(REPORT_URL_CAPACITY - old(self)@.len(), i as int))
                    =~= bytes@.take(
                    min_int(REPORT_URL_CAPACITY - old(self)@.len(), bytes@.len() as int),
                ));
            }
        }
    }

    /// The written bytes, decoded as a string. The buffer is written from
    /// string slices but truncation is byte-wise, so it can split a
    /// multi-byte character: the precondition asks that what remains still be
    /// valid UTF-8, which every untruncated or all-ASCII buffer is.
    pub fn as_str(&self) -> (r: String)
        requires
            valid_utf8(self@),
        ensures
            r@ == decode_utf8(self@),
    {
        utf8_str(&self.buf)
    }
}

/// The smaller of two mathematical integers.
pub open spec fn min_int(a: int, b: int) -> int {
    if a <= b {
        a
    } else {
        b
    }
}

} // verus!
