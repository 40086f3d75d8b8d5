//! Text arguments. A request that takes text is given the address of a
//! zero-terminated copy of its bytes, which lives as long as the call.

use vstd::prelude::*;
use vstd::string::StringSliceAdditionalSpecFns;

verus! {

/// Some byte of `bytes` is zero.
pub open spec fn has_nul(bytes: Seq<u8>) -> bool {
    exists|i: int| 0 <= i < bytes.len() && bytes[i] == 0
}

/// `bytes` followed by the terminating zero.
pub open spec fn terminated(bytes: Seq<u8>) -> Seq<u8> {
    bytes.push(0u8)
}

/// Copies `bytes` and ends the copy with a zero byte. Bytes that hold a zero
/// themselves cannot be passed as text: the supervisor would read them as
/// ending there, and the result is `None`.
pub fn lower_bytes(bytes: &[u8]) -> (out: Option<Vec<u8>>)
    ensures
        has_nul(bytes@) <==> out is None,
        out is Some ==> out->0@ == terminated(bytes@),
{
    let n: usize = bytes.len();
    let mut copy: Vec<u8> = Vec::new();
    let mut i: usize = 0;
    while i < n
        invariant
            n == bytes@.len(),
            i <= n,
            copy@ == bytes@.subrange(0, i as int),
            forall|j: int| 0 <= j < i ==> bytes@[j] != 0,
        decreases n - i,
    {
        let b: u8 = bytes[i];
        if b == 0 {
            return None;
        }
        copy.push(b);
        proof {
            assert(copy@ =~= bytes@.subrange(0, i + 1));
        }
        i += 1;
    }
    proof {
        assert(bytes@.subrange(0, n as int) =~= bytes@);
    }
    copy.push(0);
    Some(copy)
}

/// Lowers a string to the zero-terminated bytes of its UTF-8 form; `None`
/// if the string holds a zero byte.
pub fn lower_text(text: &str) -> (out: Option<Vec<u8>>)
    ensures
        has_nul(text.spec_bytes()) <==> out is None,
        out is Some ==> out->0@ == terminated(text.spec_bytes()),
{
    lower_bytes(text.as_bytes())
}

/// Lowered text holds exactly one zero byte, the last one.
pub proof fn lemma_terminated_shape(bytes: Seq<u8>)
    requires
        !has_nul(bytes),
    ensures
        terminated(bytes).len() == bytes.len() + 1,
        terminated(bytes).last() == 0,
        forall|i: int| 0 <= i < bytes.len() ==> #[trigger] terminated(bytes)[i] == bytes[i] && bytes[i] != 0,
{
}

} // verus!
