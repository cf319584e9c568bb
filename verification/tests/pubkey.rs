use bls_signatures::{
    verify_proof_of_possession, verify_signature, AsPubkeyProjective, BlsError, Pubkey,
    PubkeyCompressed, PubkeyProjective, SecretKey, BLS_PUBLIC_KEY_COMPRESSED_SIZE,
};

#[test]
fn test_pubkey_verify_signature() {
    let secret = SecretKey::from_u64(12345);
    let test_message = b"test message";
    let signature_projective = secret.sign(test_message);

    let pubkey_projective = PubkeyProjective::from_secret(&secret);
    let pubkey_affine = pubkey_projective.to_affine();
    let pubkey_compressed = pubkey_affine.try_to_compressed().unwrap();

    let signature_affine = signature_projective.to_affine();
    let signature_compressed = signature_affine.try_to_compressed().unwrap();

    assert!(verify_signature(&pubkey_projective, &signature_projective, test_message).unwrap());
    assert!(verify_signature(&pubkey_affine, &signature_projective, test_message).unwrap());
    assert!(verify_signature(&pubkey_compressed, &signature_projective, test_message).unwrap());

    assert!(verify_signature(&pubkey_projective, &signature_affine, test_message).unwrap());
    assert!(verify_signature(&pubkey_affine, &signature_affine, test_message).unwrap());
    assert!(verify_signature(&pubkey_compressed, &signature_affine, test_message).unwrap());

    assert!(verify_signature(&pubkey_projective, &signature_compressed, test_message).unwrap());
    assert!(verify_signature(&pubkey_affine, &signature_compressed, test_message).unwrap());
    assert!(verify_signature(&pubkey_compressed, &signature_compressed, test_message).unwrap());
}

#[test]
fn test_pubkey_verify_proof_of_possession() {
    let secret = SecretKey::from_u64(54321);
    let proof_projective = secret.proof_of_possession();

    let pubkey_projective = PubkeyProjective::from_secret(&secret);
    let pubkey_affine = pubkey_projective.to_affine();
    let pubkey_compressed = pubkey_affine.try_to_compressed().unwrap();

    let proof_affine = proof_projective.to_affine();
    let proof_compressed = proof_affine.try_to_compressed().unwrap();

    assert!(verify_proof_of_possession(&pubkey_projective, &proof_projective).unwrap());
    assert!(verify_proof_of_possession(&pubkey_affine, &proof_projective).unwrap());
    assert!(verify_proof_of_possession(&pubkey_compressed, &proof_projective).unwrap());

    assert!(verify_proof_of_possession(&pubkey_projective, &proof_affine).unwrap());
    assert!(verify_proof_of_possession(&pubkey_affine, &proof_affine).unwrap());
    assert!(verify_proof_of_possession(&pubkey_compressed, &proof_affine).unwrap());

    assert!(verify_proof_of_possession(&pubkey_projective, &proof_compressed).unwrap());
    assert!(verify_proof_of_possession(&pubkey_affine, &proof_compressed).unwrap());
    assert!(verify_proof_of_possession(&pubkey_compressed, &proof_compressed).unwrap());
}

#[test]
fn pubkey_from_str() {
    let pubkey = PubkeyProjective::from_secret(&SecretKey::from_u64(7));
    let pubkey_affine = pubkey.to_affine();
    let pubkey_affine_string = pubkey_affine.to_text();
    let pubkey_affine_from_string = Pubkey::from_text(&pubkey_affine_string).unwrap();
    assert_eq!(pubkey_affine, pubkey_affine_from_string);

    let pubkey_compressed = PubkeyCompressed([1; BLS_PUBLIC_KEY_COMPRESSED_SIZE]);
    let pubkey_compressed_string = pubkey_compressed.to_text();
    let pubkey_compressed_from_string =
        PubkeyCompressed::from_text(&pubkey_compressed_string).unwrap();
    assert_eq!(pubkey_compressed, pubkey_compressed_from_string);
}

#[test]
fn round_trip_through_affine_and_compressed() {
    let original = PubkeyProjective::from_secret(&SecretKey::from_u64(99));

    let affine = original.to_affine();
    let back = affine.try_to_projective().unwrap();
    assert!(back == original);

    let compressed = affine.try_to_compressed().unwrap();
    let back_from_compressed = compressed.try_to_projective().unwrap();
    assert!(back_from_compressed == original);

    let affine_again = compressed.try_to_affine().unwrap();
    assert_eq!(affine_again, affine);
}

#[test]
fn aggregate_with_empty_list_is_identity() {
    let mut accumulator = PubkeyProjective::from_secret(&SecretKey::from_u64(5));
    let before = accumulator;
    accumulator.aggregate_with(&[]);
    assert!(accumulator == before);
}

#[test]
fn aggregate_empty_list_is_rejected() {
    let result = PubkeyProjective::aggregate(&[]);
    assert_eq!(result.unwrap_err(), BlsError::EmptyAggregation);
}

#[test]
fn aggregate_is_order_independent() {
    let a = PubkeyProjective::from_secret(&SecretKey::from_u64(101));
    let b = PubkeyProjective::from_secret(&SecretKey::from_u64(202));
    let c = PubkeyProjective::from_secret(&SecretKey::from_u64(303));

    let abc = PubkeyProjective::aggregate(&[a, b, c]).unwrap();
    let cab = PubkeyProjective::aggregate(&[c, a, b]).unwrap();
    assert!(abc == cab);
}

#[test]
fn aggregate_adds_discrete_logarithms() {
    let two = PubkeyProjective::from_secret(&SecretKey::from_u64(2));
    let three = PubkeyProjective::from_secret(&SecretKey::from_u64(3));
    let five = PubkeyProjective::from_secret(&SecretKey::from_u64(5));

    let aggregate = PubkeyProjective::aggregate(&[two, three]).unwrap();
    assert!(aggregate == five);
    assert!(aggregate != two);

    let mut accumulator = two;
    accumulator.aggregate_with(&[three]);
    assert!(accumulator == five);
}

#[test]
fn default_projective_is_the_identity() {
    let identity = PubkeyProjective::default();
    let key = PubkeyProjective::from_secret(&SecretKey::from_u64(31));

    let mut accumulator = identity;
    accumulator.aggregate_with(&[key]);
    assert!(accumulator == key);

    // The canonical uncompressed encoding of the identity sets only the
    // infinity flag bit.
    let encoded = identity.to_affine();
    assert_eq!(encoded.0[0], 0x40);
    assert!(encoded.0.iter().skip(1).all(|&byte| byte == 0));
}

#[test]
fn distinct_secrets_give_distinct_keys() {
    let one = PubkeyProjective::from_secret(&SecretKey::from_u64(1));
    let two = PubkeyProjective::from_secret(&SecretKey::from_u64(2));
    assert!(one != two);
}

#[test]
fn flipping_any_message_byte_breaks_verification() {
    let secret = SecretKey::from_u64(777);
    let pubkey = PubkeyProjective::from_secret(&secret);
    let message = b"test message";
    let signature = secret.sign(message);

    assert!(verify_signature(&pubkey, &signature, message).unwrap());
    for i in 0..message.len() {
        let mut tampered = message.to_vec();
        tampered[i] ^= 0x01;
        assert!(!verify_signature(&pubkey, &signature, &tampered).unwrap());
    }
}

#[test]
fn wrong_signature_fails_verification() {
    let secret = SecretKey::from_u64(888);
    let pubkey = PubkeyProjective::from_secret(&secret);
    let other_signature = secret.sign(b"another message");
    assert!(!verify_signature(&pubkey, &other_signature, b"test message").unwrap());
}

#[test]
fn proof_of_possession_is_bound_to_its_key() {
    let secret_a = SecretKey::from_u64(1001);
    let secret_b = SecretKey::from_u64(2002);
    let proof_a = secret_a.proof_of_possession();

    let pubkey_a = PubkeyProjective::from_secret(&secret_a);
    let pubkey_b = PubkeyProjective::from_secret(&secret_b);

    assert!(verify_proof_of_possession(&pubkey_a, &proof_a).unwrap());
    assert!(!verify_proof_of_possession(&pubkey_b, &proof_a).unwrap());
}

#[test]
fn byte_types_order_lexicographically() {
    let small = PubkeyCompressed([0; BLS_PUBLIC_KEY_COMPRESSED_SIZE]);
    let mut bytes = [0u8; BLS_PUBLIC_KEY_COMPRESSED_SIZE];
    bytes[BLS_PUBLIC_KEY_COMPRESSED_SIZE - 1] = 1;
    let large = PubkeyCompressed(bytes);
    assert!(small < large);
    assert!(large > small);
    assert!(small <= small);
}

#[test]
fn verification_propagates_conversion_errors() {
    let secret = SecretKey::from_u64(4);
    let signature = secret.sign(b"test message");
    let invalid_key = Pubkey::default();

    let result = verify_signature(&invalid_key, &signature, b"test message");
    assert_eq!(result.unwrap_err(), BlsError::PointDecode);

    let proof = secret.proof_of_possession();
    let result = verify_proof_of_possession(&invalid_key, &proof);
    assert_eq!(result.unwrap_err(), BlsError::PointDecode);
}
