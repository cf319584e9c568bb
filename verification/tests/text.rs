use bls_signatures::{
    AsPubkeyProjective, BlsError, Pubkey, PubkeyCompressed, PubkeyProjective, SecretKey,
    BLS_PUBLIC_KEY_AFFINE_SIZE, BLS_PUBLIC_KEY_COMPRESSED_SIZE,
};

#[test]
fn to_text_has_exact_base64_form() {
    let compressed = PubkeyCompressed([0; BLS_PUBLIC_KEY_COMPRESSED_SIZE]);
    assert_eq!(compressed.to_text(), "A".repeat(64));

    let affine = Pubkey([0; BLS_PUBLIC_KEY_AFFINE_SIZE]);
    assert_eq!(affine.to_text(), "A".repeat(128));

    // A non-trivial buffer: three 0x01 bytes encode as "AQEB".
    let mut bytes = [0u8; BLS_PUBLIC_KEY_COMPRESSED_SIZE];
    bytes[0] = 1;
    bytes[1] = 1;
    bytes[2] = 1;
    let text = PubkeyCompressed(bytes).to_text();
    assert!(text.starts_with("AQEB"));
    assert_eq!(text.len(), 64);
}

#[test]
fn text_round_trips_for_both_types() {
    let affine = PubkeyProjective::from_secret(&SecretKey::from_u64(17)).to_affine();
    assert_eq!(Pubkey::from_text(&affine.to_text()).unwrap(), affine);

    let compressed = affine.try_to_compressed().unwrap();
    assert_eq!(
        PubkeyCompressed::from_text(&compressed.to_text()).unwrap(),
        compressed
    );
}

#[test]
fn from_text_rejects_bad_base64() {
    assert_eq!(
        Pubkey::from_text("this is not base64!").unwrap_err(),
        BlsError::TextDecode
    );
    assert_eq!(
        PubkeyCompressed::from_text("====").unwrap_err(),
        BlsError::TextDecode
    );
    // Valid base64, but longer than the accepted cap.
    let too_long = "A".repeat(400);
    assert_eq!(Pubkey::from_text(&too_long).unwrap_err(), BlsError::TextDecode);
}

#[test]
fn from_text_rejects_wrong_decoded_length() {
    // 64 base64 characters decode to 48 bytes: wrong for the affine type,
    // right for the compressed type.
    let text48 = "A".repeat(64);
    assert_eq!(Pubkey::from_text(&text48).unwrap_err(), BlsError::LengthMismatch);
    assert!(PubkeyCompressed::from_text(&text48).is_ok());

    let text96 = "A".repeat(128);
    assert_eq!(
        PubkeyCompressed::from_text(&text96).unwrap_err(),
        BlsError::LengthMismatch
    );
    assert!(Pubkey::from_text(&text96).is_ok());
}

#[test]
fn byte_slices_of_wrong_length_are_rejected() {
    assert_eq!(
        PubkeyProjective::try_from_bytes(&[0u8; 95]).unwrap_err(),
        BlsError::LengthMismatch
    );
    assert_eq!(
        Pubkey::try_from_bytes(&[0u8; 95]).unwrap_err(),
        BlsError::LengthMismatch
    );
    assert_eq!(
        PubkeyCompressed::try_from_bytes(&[0u8; 47]).unwrap_err(),
        BlsError::LengthMismatch
    );
}

#[test]
fn all_zero_buffers_are_not_points() {
    // Right length, but all-zero content is not a valid encoding: the
    // identity's encoding carries the infinity flag bit instead.
    assert_eq!(
        PubkeyProjective::try_from_bytes(&[0u8; 96]).unwrap_err(),
        BlsError::PointDecode
    );
    assert_eq!(
        Pubkey::default().try_to_projective().unwrap_err(),
        BlsError::PointDecode
    );
    assert_eq!(
        PubkeyCompressed::default().try_to_projective().unwrap_err(),
        BlsError::PointDecode
    );
}

#[test]
fn error_descriptions_are_not_empty() {
    assert!(!BlsError::LengthMismatch.describe().is_empty());
    assert!(!BlsError::PointDecode.describe().is_empty());
    assert!(!BlsError::EmptyAggregation.describe().is_empty());
    assert!(!BlsError::TextDecode.describe().is_empty());
}
