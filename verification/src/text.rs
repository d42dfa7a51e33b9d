//! Zero-terminated text, the only form in which the engine takes a setting
//! key, a setting value or a file path.

use vstd::prelude::*;
use vstd::slice::slice_to_vec;
use crate::violation::Violation;

verus! {

/// `position` is where the first zero byte of `text` stands.
pub open spec fn is_first_nul(text: Seq<u8>, position: int) -> bool {
    &&& 0 <= position < text.len()
    &&& text[position] == 0u8
    &&& forall|i: int| 0 <= i < position ==> text[i] != 0u8
}

/// Text that ends in one zero byte and holds no other.
///
/// Its view is the text without the terminator.
#[derive(Debug, PartialEq, Eq)]
pub struct CText {
    bytes: Vec<u8>,
}

impl View for CText {
    type V = Seq<u8>;

    closed spec fn view(&self) -> Seq<u8> {
        self.bytes@.drop_last()
    }
}

impl CText {
    #[verifier::type_invariant]
    spec fn well_formed(&self) -> bool {
        &&& self.bytes@.len() >= 1
        &&& self.bytes@.last() == 0u8
        &&& forall|i: int| 0 <= i < self.bytes@.len() - 1 ==> self.bytes@[i] != 0u8
    }

    /// Terminates `text`, which holds no zero byte, with one.
    pub fn terminate(text: &[u8]) -> (made: CText)
        requires
            !text@.contains(0u8),
        ensures
            made@ == text@,
    {
        let mut bytes: Vec<u8> = slice_to_vec(text);
        bytes.push(0);
        assert(bytes@.drop_last() =~= text@);
        assert forall|i: int| 0 <= i < bytes@.len() - 1 implies bytes@[i] != 0u8 by {
            assert(text@.contains(text@[i]));
        }
        CText { bytes }
    }

    /// Terminates `text` with a zero byte. A text that already holds a zero
    /// byte is refused, with the place of the first one: the engine would
    /// read it as ending there.
    pub fn new(text: &[u8]) -> (made: Result<CText, Violation>)
        ensures
            made is Ok <==> !text@.contains(0u8),
            match made {
                Ok(c) => c@ == text@,
                Err(Violation::InteriorNul { position }) => is_first_nul(text@, position as int),
                Err(_) => false,
            },
    {
        let n: usize = text.len();
        let mut i: usize = 0;
        while i < n
            invariant
                n == text@.len(),
                i <= n,
                forall|j: int| 0 <= j < i ==> text@[j] != 0u8,
            decreases n - i,
        {
            if text[i] == 0 {
                return Err(Violation::InteriorNul { position: i });
            }
            i += 1;
        }
        Ok(CText::terminate(text))
    }

    /// The text with its terminator, as the engine reads it.
    pub fn as_bytes_with_nul(&self) -> (bytes: &[u8])
        ensures
            bytes@ == self@.push(0u8),
            !self@.contains(0u8),
    {
        proof {
            use_type_invariant(self);
            assert(self.bytes@ =~= self@.push(0u8));
        }
        self.bytes.as_slice()
    }

    /// The text without its terminator.
    pub fn to_bytes(&self) -> (bytes: Vec<u8>)
        ensures
            bytes@ == self@,
            !self@.contains(0u8),
    {
        proof {
            use_type_invariant(self);
        }
        let n: usize = self.bytes.len() - 1;
        let mut bytes: Vec<u8> = Vec::new();
        let mut i: usize = 0;
        while i < n
            invariant
                n == self.bytes@.len() - 1,
                i <= n,
                bytes@ == self.bytes@.subrange(0, i as int),
            decreases n - i,
        {
            bytes.push(self.bytes[i]);
            assert(self.bytes@.subrange(0, i as int).push(self.bytes@[i as int])
                =~= self.bytes@.subrange(0, i + 1));
            i += 1;
        }
        assert(self.bytes@.subrange(0, n as int) =~= self@);
        bytes
    }
}

impl Clone for CText {
    fn clone(&self) -> (copy: Self)
        ensures
            copy@ == self@,
    {
        let mut bytes: Vec<u8> = self.to_bytes();
        bytes.push(0);
        assert(bytes@.drop_last() =~= self@);
        CText { bytes }
    }
}

} // verus!
