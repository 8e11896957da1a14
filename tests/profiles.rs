use nugget_sync_server::profile::{check_encryption_type, ProfileError};

#[test]
fn only_xchacha_is_accepted() {
    assert_eq!(check_encryption_type("XChaCha20-Poly1305"), Ok(()));
    assert_eq!(
        check_encryption_type("AES-256-GCM"),
        Err(ProfileError::UnsupportedEncryption)
    );
    assert_eq!(
        check_encryption_type("xchacha20-poly1305"),
        Err(ProfileError::UnsupportedEncryption)
    );
    assert_eq!(check_encryption_type(""), Err(ProfileError::UnsupportedEncryption));
}
