use vstd::prelude::*;
use vstd::string::StringSliceAdditionalSpecFns;

use crate::error::IfaceError;

verus! {

/// True when the byte sequence holds a zero byte, so that it cannot be
/// the body of a null-terminated byte string.
pub open spec fn has_nul(bytes: Seq<u8>) -> bool {
    exists|i: int| 0 <= i < bytes.len() && bytes[i] == 0
}

/// What encoding an interface name yields: its UTF-8 bytes followed by a
/// single terminating null byte, or the name-encoding error when a null
/// byte is embedded in the name itself.
pub open spec fn encoded_name(bytes: Seq<u8>) -> Result<Seq<u8>, IfaceError> {
    if has_nul(bytes) {
        Err(IfaceError::NameHasNul)
    } else {
        Ok(bytes.push(0u8))
    }
}

/// Encode an interface name as a null-terminated byte string.
///
/// Fails, before any descriptor is ever requested, exactly when the name
/// holds an embedded null byte.
pub fn encode_name(name: &str) -> (r: Result<Vec<u8>, IfaceError>)
    ensures
        match r {
            Ok(z) => encoded_name(name.spec_bytes()) == Ok::<Seq<u8>, IfaceError>(z@),
            Err(e) => encoded_name(name.spec_bytes()) == Err::<Seq<u8>, IfaceError>(e),
        },
{
    let bytes: &[u8] = name.as_bytes();
    let mut out: Vec<u8> = Vec::new();
    let mut i: usize = 0;
    while i < bytes.len()
        invariant
            i <= bytes@.len(),
            out@ =~= bytes@.subrange(0, i as int),
            forall|j: int| 0 <= j < i ==> bytes@[j] != 0,
            bytes@ == name.spec_bytes(),
        decreases bytes@.len() - i,
    {
        let b = bytes[i];
        if b == 0 {
            assert(has_nul(name.spec_bytes()));
            return Err(IfaceError::NameHasNul);
        }
        out.push(b);
        i += 1;
    }
    assert(out@ =~= bytes@);
    out.push(0);
    Ok(out)
}

} // verus!
