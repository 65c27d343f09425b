//! A borrowed view of raw UTF-16LE string bytes.
//!
//! Name and value strings of the map are unterminated UTF-16LE byte runs
//! inside the section buffer. This type exposes them without copying or
//! decoding; full decoding to a host string type is the caller's concern.
//! The one comparison the lookup engine needs — equality with an ASCII
//! query — is provided here, verified.

use vstd::prelude::*;

use crate::format::spec_utf16le_of_ascii;

verus! {

/// A borrowed slice of raw UTF-16LE string bytes.
///
/// The length is in bytes, not code units, and the bytes carry no terminator.
#[derive(Clone, Copy, Debug)]
pub struct U16StrLe<'a>(pub &'a [u8]);

impl<'a> View for U16StrLe<'a> {
    type V = Seq<u8>;

    open spec fn view(&self) -> Seq<u8> {
        self.0@
    }
}

impl<'a> U16StrLe<'a> {
    /// Returns the raw UTF-16LE bytes.
    pub fn bytes(&self) -> (r: &'a [u8])
        ensures
            r@ == self@,
    {
        self.0
    }

    /// Returns the length in bytes (twice the number of UTF-16 code units).
    pub fn len(&self) -> (r: usize)
        ensures
            r == self@.len(),
    {
        self.0.len()
    }

    /// Whether the string holds no bytes at all.
    pub fn is_empty(&self) -> (r: bool)
        ensures
            r == (self@.len() == 0),
    {
        self.0.len() == 0
    }

    /// Whether these UTF-16LE bytes spell exactly the ASCII string `other`.
    pub fn eq_ascii_str(&self, other: &str) -> (r: bool)
        requires
            vstd::string::is_ascii(other),
        ensures
            r == spec_utf16le_of_ascii(self@, other@),
    {
        let obytes = other.as_bytes();
        proof {
            vstd::string::is_ascii_spec_bytes(other);
            assert forall|i: int| 0 <= i < other@.len() implies obytes@[i] == (
            #[trigger] other@[i]) as u8 by {
                assert(obytes@ =~= Seq::new(other@.len(), |j: int| other@[j] as u8));
            }
            assert(obytes@.len() == other@.len());
        }
        let sl: usize = self.0.len();
        if sl % 2 != 0 || sl / 2 != obytes.len() {
            return false;
        }
        let n: usize = obytes.len();
        let mut k: usize = 0;
        while k < n
            invariant
                n == other@.len(),
                n == obytes@.len(),
                self@.len() == 2 * n,
                self@.len() <= usize::MAX,
                k <= n,
                forall|i: int| 0 <= i < n ==> obytes@[i] == (#[trigger] other@[i]) as u8,
                forall|i: int|
                    0 <= i < k ==> self@[2 * i] == (#[trigger] other@[i]) as u8 && self@[2 * i + 1]
                        == 0,
            decreases n - k,
        {
            if self.0[2 * k] != obytes[k] || self.0[2 * k + 1] != 0 {
                proof {
                    if spec_utf16le_of_ascii(self@, other@) {
                        assert(self@[2 * (k as int)] == (other@[k as int]) as u8);
                        assert(self@[2 * (k as int) + 1] == 0);
                    }
                }
                return false;
            }
            k += 1;
        }
        true
    }
}

} // verus!
