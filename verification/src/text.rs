//! Text in the shape the native layer reads it: bytes that end in a single
//! NUL and hold no other.

use vstd::prelude::*;
use vstd::slice::slice_subrange;
use vstd::slice::slice_to_vec;
use vstd::string::StringSliceAdditionalSpecFns;

verus! {

/// The first index at which `bytes` holds a NUL, or its length if it holds
/// none.
pub open spec fn first_nul(bytes: Seq<u8>) -> int
    decreases bytes.len(),
{
    if bytes.len() == 0 || bytes[0] == 0u8 {
        0
    } else {
        1 + first_nul(bytes.skip(1))
    }
}

/// `first_nul` is the least index of a NUL: nothing before it is one, and it
/// is the length exactly when there is none at all.
pub proof fn lemma_first_nul(bytes: Seq<u8>)
    ensures
        0 <= first_nul(bytes) <= bytes.len(),
        forall|i: int| 0 <= i < first_nul(bytes) ==> bytes[i] != 0u8,
        first_nul(bytes) < bytes.len() ==> bytes[first_nul(bytes)] == 0u8,
        first_nul(bytes) == bytes.len() <==> !bytes.contains(0u8),
    decreases bytes.len(),
{
    if bytes.len() == 0 || bytes[0] == 0u8 {
    } else {
        let rest = bytes.skip(1);
        lemma_first_nul(rest);
        assert forall|i: int| 0 <= i < first_nul(bytes) implies bytes[i] != 0u8 by {
            if i > 0 {
                assert(rest[i - 1] == bytes[i]);
            }
        }
    }
}

/// Why bytes were refused as text: they hold a NUL, first at `position`.
#[derive(Clone, Copy, Debug, PartialEq, Eq)]
pub struct NulError {
    pub position: usize,
}

/// Owned text that the native layer can read through a pointer: the content,
/// which holds no NUL, followed by the one NUL that ends it.
#[derive(Debug, PartialEq, Eq)]
pub struct CText {
    bytes: Vec<u8>,
}

impl View for CText {
    type V = Seq<u8>;

    /// The content, without the NUL that ends it.
    closed spec fn view(&self) -> Seq<u8> {
        self.bytes@.drop_last()
    }
}

impl CText {
    #[verifier::type_invariant]
    spec fn well_formed(self) -> bool {
        &&& self.bytes@.len() >= 1
        &&& self.bytes@.last() == 0u8
        &&& !self.bytes@.drop_last().contains(0u8)
    }

    /// Takes `bytes` as text. Bytes that hold a NUL are refused, with the
    /// place of the first one; all others are accepted unchanged.
    pub fn new(bytes: Vec<u8>) -> (r: Result<CText, NulError>)
        ensures
            bytes@.contains(0u8) <==> r is Err,
            r matches Ok(text) ==> text@ == bytes@,
            r matches Err(e) ==> e.position == first_nul(bytes@),
    {
        let n: usize = bytes.len();
        let mut i: usize = 0;
        while i < n
            invariant
                n == bytes@.len(),
                i <= n,
                forall|k: int| 0 <= k < i ==> bytes@[k] != 0u8,
            decreases n - i,
        {
            if bytes[i] == 0 {
                proof {
                    lemma_first_nul(bytes@);
                }
                return Err(NulError { position: i });
            }
            i = i + 1;
        }
        Ok(CText::terminated(bytes))
    }

    /// Ends `bytes`, which hold no NUL, with one.
    pub(crate) fn terminated(bytes: Vec<u8>) -> (r: CText)
        requires
            !bytes@.contains(0u8),
        ensures
            r@ == bytes@,
    {
        let mut bytes = bytes;
        bytes.push(0);
        CText { bytes }
    }

    /// The UTF-8 bytes of `text`, which hold no NUL, as text for the native
    /// layer.
    pub(crate) fn of_str(text: &str) -> (r: CText)
        requires
            !text.spec_bytes().contains(0u8),
        ensures
            r@ == text.spec_bytes(),
    {
        CText::terminated(slice_to_vec(text.as_bytes()))
    }

    /// The number of bytes of content.
    pub fn len(&self) -> (n: usize)
        ensures
            n == self@.len(),
    {
        proof {
            use_type_invariant(self);
        }
        self.bytes.len() - 1
    }

    /// The content.
    pub fn as_bytes(&self) -> (r: &[u8])
        ensures
            r@ == self@,
            !r@.contains(0u8),
    {
        proof {
            use_type_invariant(self);
        }
        slice_subrange(self.bytes.as_slice(), 0, self.bytes.len() - 1)
    }

    /// The content and the NUL that ends it: the bytes to which a pointer
    /// handed to the native layer points.
    pub fn as_bytes_with_nul(&self) -> (r: &[u8])
        ensures
            r@ == self@.push(0u8),
    {
        proof {
            use_type_invariant(self);
        }
        self.bytes.as_slice()
    }
}

} // verus!
