//! The target hostname: whether one was given, and its form for the service.

use vstd::prelude::*;
use vstd::string::StringSliceAdditionalSpecFns;
use crate::error::FatalError;

verus! {

/// Whether `bytes` can be handed over as a terminated string: no byte of it
/// is the terminator.
pub open spec fn encodable(bytes: Seq<u8>) -> bool {
    forall|i: int| 0 <= i < bytes.len() ==> bytes[i] != 0
}

/// `bytes` followed by the terminator.
pub open spec fn terminated(bytes: Seq<u8>) -> Seq<u8> {
    bytes.push(0u8)
}

/// The hostname that a run is to verify, from the value given on the command
/// line: the value itself, unless it is missing or empty.
pub fn accept_hostname(argument: Option<String>) -> (target: Option<String>)
    ensures
        target == match argument {
            Some(name) => if name@.len() > 0 {
                Some(name)
            } else {
                None
            },
            None => None,
        },
{
    match argument {
        Some(name) => {
            if name.as_str().is_empty() {
                None
            } else {
                Some(name)
            }
        },
        None => None,
    }
}

/// Encodes a hostname for the service: its UTF-8 bytes followed by a
/// terminator. A hostname that holds a zero byte cannot be encoded.
pub fn encode_hostname(hostname: &str) -> (encoded: Result<Vec<u8>, FatalError>)
    ensures
        encoded is Ok <==> encodable(hostname.spec_bytes()),
        encoded matches Ok(bytes) ==> bytes@ == terminated(hostname.spec_bytes()),
        encoded matches Err(e) ==> e == FatalError::InvalidHostnameEncoding,
{
    let source = hostname.as_bytes();
    let mut bytes: Vec<u8> = Vec::new();
    let mut i: usize = 0;
    while i < source.len()
        invariant
            i <= source@.len(),
            source@ == hostname.spec_bytes(),
            bytes@ == source@.take(i as int),
            forall|k: int| 0 <= k < i ==> source@[k] != 0,
        decreases source@.len() - i,
    {
        let byte: u8 = source[i];
        if byte == 0 {
            return Err(FatalError::InvalidHostnameEncoding);
        }
        bytes.push(byte);
        assert(source@.take(i + 1) =~= source@.take(i as int).push(byte));
        i += 1;
    }
    assert(source@.take(i as int) =~= source@);
    bytes.push(0u8);
    Ok(bytes)
}

} // verus!
