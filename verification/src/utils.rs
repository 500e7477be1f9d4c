//! Marshaling of host strings into the form the foreign boundary takes.

use vstd::prelude::*;
use vstd::string::StringSliceAdditionalSpecFns;
use crate::result::Error;

verus! {

/// True when `position` is where the first zero byte of `bytes` stands.
pub open spec fn is_first_nul(bytes: Seq<u8>, position: int) -> bool {
    &&& 0 <= position < bytes.len()
    &&& bytes[position] == 0u8
    &&& forall|j: int| 0 <= j < position ==> bytes[j] != 0u8
}

/// Where the first zero byte of `bytes` stands, for bytes that hold one.
pub open spec fn first_nul(bytes: Seq<u8>) -> int {
    choose|position: int| is_first_nul(bytes, position)
}

/// What marshaling makes of the bytes of a host string: the same bytes with
/// a terminating zero behind them, or, where they already hold a zero byte,
/// the error that names the first one.
pub open spec fn c_string_spec(bytes: Seq<u8>) -> Result<Seq<u8>, Error> {
    if bytes.contains(0u8) {
        Err(Error::StringConversionError(first_nul(bytes) as usize))
    } else {
        Ok(bytes.push(0u8))
    }
}

/// A first zero byte is the only one: where `position` is one for `bytes`,
/// the bytes hold a zero and `first_nul` names that position.
pub proof fn lemma_first_nul(bytes: Seq<u8>, position: int)
    requires
        is_first_nul(bytes, position),
    ensures
        bytes.contains(0u8),
        first_nul(bytes) == position,
{
    let chosen = first_nul(bytes);
    assert(is_first_nul(bytes, chosen));
    if chosen < position {
        assert(bytes[chosen] != 0u8);
    }
    if position < chosen {
        assert(bytes[position] != 0u8);
    }
}

/// Bytes whose every element differs from zero hold no zero byte.
pub proof fn lemma_no_nul(bytes: Seq<u8>)
    requires
        forall|j: int| 0 <= j < bytes.len() ==> bytes[j] != 0u8,
    ensures
        !bytes.contains(0u8),
{
    if bytes.contains(0u8) {
        let j = choose|j: int| 0 <= j < bytes.len() && bytes[j] == 0u8;
        assert(bytes[j] != 0u8);
    }
}

/// Turns a host string into the zero-terminated bytes that can be passed
/// across the foreign boundary. A string with a zero byte inside cannot be
/// represented there and is refused.
pub fn c_string(s: &str) -> (r: Result<Vec<u8>, Error>)
    ensures
        c_string_spec(s.spec_bytes()) == match r {
            Ok(marshaled) => Ok::<Seq<u8>, Error>(marshaled@),
            Err(e) => Err(e),
        },
{
    let bytes = s.as_bytes();
    let mut marshaled: Vec<u8> = Vec::new();
    let mut i: usize = 0;
    while i < bytes.len()
        invariant
            bytes@ == s.spec_bytes(),
            i <= bytes.len(),
            marshaled@ == bytes@.subrange(0, i as int),
            forall|j: int| 0 <= j < i ==> bytes@[j] != 0u8,
        decreases bytes.len() - i,
    {
        let byte = bytes[i];
        if byte == 0 {
            proof {
                lemma_first_nul(bytes@, i as int);
            }
            return Err(Error::StringConversionError(i));
        }
        marshaled.push(byte);
        i += 1;
        assert(marshaled@ == bytes@.subrange(0, i as int));
    }
    proof {
        lemma_no_nul(bytes@);
        assert(bytes@.subrange(0, i as int) == bytes@);
    }
    marshaled.push(0);
    Ok(marshaled)
}

} // verus!
