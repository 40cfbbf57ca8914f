//! Passing Rust strings to C: NUL-terminated byte strings.
use vstd::prelude::*;

use crate::esp_error::{EspError, ESP_ERR_INVALID_ARG};
use vstd::string::StringSliceAdditionalSpecFns;

verus! {

/// The bytes of `value` followed by a terminating NUL, when `value` has no
/// NUL of its own; `ESP_ERR_INVALID_ARG` otherwise (a C string cannot hold one).
pub fn to_cstring_arg(value: &str) -> (r: Result<Vec<u8>, EspError>)
    ensures
        r is Ok <==> !value.spec_bytes().contains(0u8),
        r matches Ok(c) ==> c@ == value.spec_bytes().push(0u8),
        r matches Err(e) ==> e.spec_code() == ESP_ERR_INVALID_ARG,
{
    let bytes = value.as_bytes();
    let mut out: Vec<u8> = Vec::new();
    let mut i: usize = 0;
    while i < bytes.len()
        invariant
            bytes@ == value.spec_bytes(),
            i <= bytes@.len(),
            out@ == bytes@.subrange(0, i as int),
            forall|j: int| 0 <= j < i ==> bytes@[j] != 0u8,
        decreases bytes.len() - i,
    {
        if bytes[i] == 0 {
            assert(bytes@[i as int] == 0u8);
            return Err(EspError::invalid_arg());
        }
        out.push(bytes[i]);
        assert(out@ =~= bytes@.subrange(0, i + 1));
        i = i + 1;
    }
    out.push(0u8);
    assert(bytes@.subrange(0, bytes@.len() as int) =~= bytes@);
    Ok(out)
}

} // verus!
