use vstd::prelude::*;
use vstd::string::StringSliceAdditionalSpecFns;

verus! {

/// Whether `b` holds a zero byte anywhere.
pub open spec fn has_nul(b: Seq<u8>) -> bool {
    exists|i: int| 0 <= i < b.len() && b[i] == 0
}

/// The null-terminated form of `b`.
pub open spec fn terminated(b: Seq<u8>) -> Seq<u8> {
    b.push(0)
}

/// Text in the form a C API reads: its bytes, then one zero byte, with no zero
/// byte before the end.
pub struct CText {
    bytes: Vec<u8>,
}

impl View for CText {
    type V = Seq<u8>;

    /// All bytes, the terminating zero included.
    closed spec fn view(&self) -> Seq<u8> {
        self.bytes@
    }
}

impl CText {
    #[verifier::type_invariant]
    closed spec fn well_formed(&self) -> bool {
        &&& self.bytes@.len() > 0
        &&& self.bytes@.last() == 0
        &&& !has_nul(self.bytes@.drop_last())
    }

    /// The text before the terminator.
    pub open spec fn content(&self) -> Seq<u8> {
        self@.drop_last()
    }

    /// Converts `s` to null-terminated form; fails, rather than cut the text
    /// short, when `s` holds an embedded null byte.
    pub fn new(s: &str) -> (r: Option<CText>)
        ensures
            r is Some <==> !has_nul(s.spec_bytes()),
            r matches Some(t) ==> t@ == terminated(s.spec_bytes()),
    {
        let src = s.as_bytes();
        let mut bytes: Vec<u8> = Vec::new();
        let mut i: usize = 0;
        while i < src.len()
            invariant
                src@ == s.spec_bytes(),
                i <= src@.len(),
                bytes@ == src@.subrange(0, i as int),
                forall|j: int| 0 <= j < i ==> src@[j] != 0,
            decreases src@.len() - i,
        {
            if src[i] == 0 {
                assert(has_nul(s.spec_bytes()));
                return None;
            }
            bytes.push(src[i]);
            i = i + 1;
        }
        assert(bytes@ =~= src@);
        bytes.push(0);
        assert(bytes@.drop_last() =~= src@);
        Some(CText { bytes })
    }

    /// The bytes, terminator included, as handed to a C function.
    pub fn as_bytes(&self) -> (r: &[u8])
        ensures
            r@ == self@,
            r@ == terminated(self.content()),
            !has_nul(self.content()),
    {
        proof {
            use_type_invariant(self);
            assert(self@ =~= self@.drop_last().push(0));
        }
        self.bytes.as_slice()
    }
}

} // verus!
