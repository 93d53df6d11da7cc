use vstd::prelude::*;
use crate::error::TextError;

verus! {

/// Number of bytes of key material that every algorithm consumes.
pub const KEY_LEN: usize = 32;

/// The 32 bytes that key material of any length stands for: its first 32.
pub open spec fn key_prefix(material: Seq<u8>) -> Seq<u8>
    recommends
        material.len() >= KEY_LEN,
{
    material.subrange(0, KEY_LEN as int)
}

/// Takes the first 32 bytes of `material` as a key; anything after them is
/// ignored, and shorter material is refused.
pub fn key_bytes(material: &[u8]) -> (r: Result<[u8; 32], TextError>)
    ensures
        material@.len() < KEY_LEN ==> r == Err::<[u8; 32], TextError>(TextError::KeyFormat),
        material@.len() >= KEY_LEN ==> r.is_ok() && r.unwrap()@ == key_prefix(material@),
{
    if material.len() < KEY_LEN {
        return Err(TextError::KeyFormat);
    }
    let mut key = [0u8; 32];
    let mut i: usize = 0;
    while i < KEY_LEN
        invariant
            i <= KEY_LEN,
            material@.len() >= KEY_LEN,
            forall|j: int| 0 <= j < i ==> key@[j] == material@[j],
        decreases KEY_LEN - i,
    {
        key[i] = material[i];
        i += 1;
    }
    assert(key@ =~= key_prefix(material@));
    Ok(key)
}

} // verus!
