//! The text-encoding guard.
//!
//! Every string that the binding layer would hand to the native component
//! travels as a NUL-terminated C string. A value whose byte encoding contains
//! an interior NUL byte therefore cannot cross the boundary faithfully, and
//! the native side gives no report about it: the guard must fail such a value
//! before any native call is attempted. Text coming back from the native side
//! can also fail to decode; that failure is kept distinct from every other
//! error of the layer.

use vstd::prelude::*;
use vstd::string::StringSliceAdditionalSpecFns;

verus! {

/// Why a piece of text was rejected at the native boundary.
#[derive(Clone, Copy, Debug, PartialEq, Eq, Structural)]
pub enum TextError {
    /// The text contains an interior NUL byte and cannot be passed onward as
    /// a C string.
    InteriorNul,
    /// Bytes received from the native side do not decode as text.
    NotUtf8,
}

/// True when no byte of `bytes` is a NUL byte, so the sequence survives a
/// trip through a NUL-terminated C string unaltered.
pub open spec fn nul_free(bytes: Seq<u8>) -> bool {
    forall|i: int| 0 <= i < bytes.len() ==> bytes[i] != 0
}

/// Checks the guard on a string: accepts it exactly when its byte encoding
/// holds no interior NUL byte.
pub fn check_text(s: &str) -> (r: Result<(), TextError>)
    ensures
        r is Ok <==> nul_free(s.spec_bytes()),
        r is Err ==> r == Err::<(), TextError>(TextError::InteriorNul),
{
    let bytes = s.as_bytes();
    let mut i: usize = 0;
    while i < bytes.len()
        invariant
            0 <= i <= bytes@.len(),
            bytes@ == s.spec_bytes(),
            forall|j: int| 0 <= j < i ==> bytes@[j] != 0,
        decreases bytes@.len() - i,
    {
        if bytes[i] == 0 {
            return Err(TextError::InteriorNul);
        }
        i = i + 1;
    }
    Ok(())
}

} // verus!
