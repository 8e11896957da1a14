//! The rule on profiles that users upload: the client encrypts them, and
//! only one cipher is accepted.

use vstd::prelude::*;

verus! {

/// Why a profile upload was refused.
#[derive(PartialEq, Eq, Structural, Debug, Clone, Copy)]
pub enum ProfileError {
    /// The profile is encrypted with a cipher other than XChaCha20-Poly1305.
    UnsupportedEncryption,
}

/// Accepts a profile upload only when it declares XChaCha20-Poly1305.
pub fn check_encryption_type(encryption_type: &str) -> (r: Result<(), ProfileError>)
    ensures
        r is Ok <==> encryption_type@ == "XChaCha20-Poly1305"@,
        r is Err ==> r == Err::<(), ProfileError>(ProfileError::UnsupportedEncryption),
{
    if String::from_str(encryption_type) == String::from_str("XChaCha20-Poly1305") {
        Ok(())
    } else {
        Err(ProfileError::UnsupportedEncryption)
    }
}

} // verus!
