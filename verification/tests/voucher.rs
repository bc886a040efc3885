use bandwidth_credentials::attribute::{hash_text, hash_to_scalar, Attribute};
use bandwidth_credentials::error::ErrorKind;
use bandwidth_credentials::voucher::{
    BandwidthVoucher, BlindSignRequest, SigningKey, TxHash, PRIVATE_ATTRIBUTES, PUBLIC_ATTRIBUTES,
    TOTAL_ATTRIBUTES,
};
use bls12_381::hash_to_curve::{ExpandMsgXmd, HashToField};
use nym_crypto::asymmetric::{encryption, identity};
use rand::rngs::OsRng;
use rand::RngCore;

fn random_scalar() -> Attribute {
    let mut wide = [0u8; 64];
    OsRng.fill_bytes(&mut wide);
    Attribute::from_bytes(bls12_381::Scalar::from_bytes_wide(&wide).to_bytes())
}

fn encryption_key() -> encryption::PrivateKey {
    let mut rng = OsRng;
    let pair = encryption::KeyPair::new(&mut rng);
    encryption::PrivateKey::from_bytes(&pair.private_key().to_bytes()).unwrap()
}

fn signing_key(pair: &identity::KeyPair) -> SigningKey {
    let private = identity::PrivateKey::from_base58_string(pair.private_key().to_base58_string())
        .unwrap();
    SigningKey::from_bytes(private.to_bytes())
}

fn fresh_voucher(value: &str, info: &str) -> BandwidthVoucher {
    let mut rng = OsRng;
    let public = BandwidthVoucher::public_attributes_of(value, info);
    let openings = vec![random_scalar(), random_scalar(), random_scalar()];
    let mut request = Vec::new();
    request.extend_from_slice(&public[0].to_bytes());
    request.extend_from_slice(&public[1].to_bytes());
    BandwidthVoucher::new(
        [random_scalar(), random_scalar()],
        value.to_string(),
        info.to_string(),
        TxHash::new([0; 32]),
        signing_key(&identity::KeyPair::new(&mut rng)),
        encryption_key(),
        Ok((openings, BlindSignRequest::from_bytes(request))),
    )
    .unwrap()
}

#[test]
fn voucher_consistency() {
    let voucher = fresh_voucher("1234", "voucher info");
    assert!(!BandwidthVoucher::verify_against_plain(
        &[],
        &voucher.get_public_attributes_plain()
    ));
    assert!(!BandwidthVoucher::verify_against_plain(
        &voucher.get_public_attributes(),
        &[],
    ));
    assert!(!BandwidthVoucher::verify_against_plain(
        &voucher.get_public_attributes(),
        &[
            voucher.get_public_attributes_plain()[0].clone(),
            String::new()
        ]
    ));
    assert!(!BandwidthVoucher::verify_against_plain(
        &voucher.get_public_attributes(),
        &[
            String::new(),
            voucher.get_public_attributes_plain()[1].clone()
        ]
    ));
    assert!(!BandwidthVoucher::verify_against_plain(
        &[voucher.get_public_attributes()[0], Attribute::one()],
        &voucher.get_public_attributes_plain()
    ));
    assert!(!BandwidthVoucher::verify_against_plain(
        &[Attribute::one(), voucher.get_public_attributes()[1]],
        &voucher.get_public_attributes_plain()
    ));
    assert!(BandwidthVoucher::verify_against_plain(
        &voucher.get_public_attributes(),
        &voucher.get_public_attributes_plain()
    ));
}

#[test]
fn attribute_counts() {
    assert_eq!(PUBLIC_ATTRIBUTES, 2);
    assert_eq!(PRIVATE_ATTRIBUTES, 2);
    assert_eq!(TOTAL_ATTRIBUTES, 4);
}

#[test]
fn hash_is_the_field_hash_under_the_scalar_domain() {
    let mut output = [bls12_381::Scalar::zero()];
    bls12_381::Scalar::hash_to_field::<ExpandMsgXmd<sha2::Sha256>>(
        b"1234",
        b"QUUX-V01-CS02-with-expander",
        &mut output,
    );
    assert_eq!(hash_to_scalar(b"1234").to_bytes(), output[0].to_bytes());
    assert_eq!(hash_text("1234"), hash_to_scalar(b"1234"));
    assert_ne!(hash_to_scalar(b"1234").to_bytes()[..4], b"1234"[..]);
}

#[test]
fn hash_is_deterministic_and_tells_plaintexts_apart() {
    assert_eq!(hash_text("1234"), hash_text("1234"));
    assert_eq!(hash_text("voucher info"), hash_text("voucher info"));
    assert_ne!(hash_text("1234"), hash_text("voucher info"));
    assert_ne!(hash_text(""), hash_text("1234"));
}

#[test]
fn hashed_attributes_are_canonical_scalars() {
    let bytes = hash_text("voucher info").to_bytes();
    assert!(bool::from(bls12_381::Scalar::from_bytes(&bytes).is_some()));
}

#[test]
fn one_is_the_scalar_one() {
    assert_eq!(Attribute::one().to_bytes(), bls12_381::Scalar::one().to_bytes());
    let mut expected = [0u8; 32];
    expected[0] = 1;
    assert_eq!(Attribute::one().to_bytes(), expected);
    assert!(Attribute::one().same(&Attribute::from_bytes(expected)));
    assert!(!Attribute::one().same(&Attribute::from_bytes([0u8; 32])));
    let mut last = expected;
    last[31] = 1;
    assert!(!Attribute::one().same(&Attribute::from_bytes(last)));
}

#[test]
fn swapped_plaintexts_do_not_verify() {
    let voucher = fresh_voucher("1234", "voucher info");
    let plain = voucher.get_public_attributes_plain();
    let swapped = vec![plain[1].clone(), plain[0].clone()];
    assert!(!BandwidthVoucher::verify_against_plain(
        &voucher.get_public_attributes(),
        &swapped
    ));
    let attrs = voucher.get_public_attributes();
    assert!(BandwidthVoucher::verify_against_plain(
        &[attrs[1], attrs[0]],
        &swapped
    ));
}

#[test]
fn wrong_lengths_do_not_verify() {
    let voucher = fresh_voucher("1234", "voucher info");
    let attrs = voucher.get_public_attributes();
    let plain = voucher.get_public_attributes_plain();
    assert!(!BandwidthVoucher::verify_against_plain(&[], &[]));
    assert!(!BandwidthVoucher::verify_against_plain(&attrs[..1], &plain));
    assert!(!BandwidthVoucher::verify_against_plain(&attrs, &plain[..1]));
    assert!(!BandwidthVoucher::verify_against_plain(&attrs[..1], &plain[..1]));
    let three = vec![attrs[0], attrs[1], attrs[1]];
    assert!(!BandwidthVoucher::verify_against_plain(&three, &plain));
    let three_plain = vec![plain[0].clone(), plain[1].clone(), plain[1].clone()];
    assert!(!BandwidthVoucher::verify_against_plain(&attrs, &three_plain));
    assert!(!BandwidthVoucher::verify_against_plain(&three, &three_plain));
}

#[test]
fn fresh_voucher_keeps_what_it_was_given() {
    let mut rng = OsRng;
    let serial = random_scalar();
    let binding = random_scalar();
    let openings = vec![random_scalar(), random_scalar()];
    let enc = encryption_key();
    let enc_bytes = enc.to_bytes();
    let voucher = BandwidthVoucher::new(
        [serial, binding],
        "1234".to_string(),
        "voucher info".to_string(),
        TxHash::new([7; 32]),
        signing_key(&identity::KeyPair::new(&mut rng)),
        enc,
        Ok((openings.clone(), BlindSignRequest::from_bytes(vec![1, 2, 3]))),
    )
    .unwrap();
    assert!(voucher.use_request());
    assert_eq!(voucher.get_private_attributes(), vec![serial, binding]);
    assert_eq!(
        voucher.get_public_attributes(),
        vec![hash_text("1234"), hash_text("voucher info")]
    );
    assert_eq!(
        voucher.get_public_attributes_plain(),
        vec!["1234".to_string(), "voucher info".to_string()]
    );
    assert_eq!(voucher.tx_hash().as_bytes(), &[7u8; 32][..]);
    assert_eq!(*voucher.tx_hash(), TxHash::new([7; 32]));
    assert_eq!(voucher.encryption_key().to_bytes(), enc_bytes);
    assert_eq!(voucher.pedersen_commitments_openings(), &openings);
    assert_eq!(voucher.blind_sign_request().to_bytes(), vec![1, 2, 3]);
}

#[test]
fn failed_builder_fails_the_construction() {
    let mut rng = OsRng;
    let res = BandwidthVoucher::new(
        [random_scalar(), random_scalar()],
        "1234".to_string(),
        "voucher info".to_string(),
        TxHash::new([0; 32]),
        signing_key(&identity::KeyPair::new(&mut rng)),
        encryption_key(),
        Err("wrong number of attributes".to_string()),
    );
    match res {
        Ok(_) => panic!("a voucher came out of a failed builder"),
        Err(e) => {
            assert_eq!(e.kind(), ErrorKind::ConstructionFailure);
            assert_eq!(e.message(), "wrong number of attributes");
        }
    }
}

#[test]
fn reconstructed_voucher_is_not_request_bearing() {
    let mut rng = OsRng;
    let serial = random_scalar();
    let binding = random_scalar();
    let voucher = BandwidthVoucher::new_with_blind_sign_req(
        [serial, binding],
        ["1234", "voucher info"],
        TxHash::new([0; 32]),
        signing_key(&identity::KeyPair::new(&mut rng)),
        encryption_key(),
        vec![Attribute::one()],
        BlindSignRequest::from_bytes(vec![9, 9]),
    );
    assert!(!voucher.use_request());
    assert_eq!(voucher.get_private_attributes(), vec![serial, binding]);
    assert_eq!(voucher.pedersen_commitments_openings(), &vec![Attribute::one()]);
    assert_eq!(voucher.blind_sign_request(), &BlindSignRequest::from_bytes(vec![9, 9]));
    assert!(BandwidthVoucher::verify_against_plain(
        &voucher.get_public_attributes(),
        &voucher.get_public_attributes_plain()
    ));
}

#[test]
fn accessors_answer_the_same_every_time() {
    let voucher = fresh_voucher("1234", "voucher info");
    assert_eq!(voucher.tx_hash(), voucher.tx_hash());
    assert_eq!(voucher.get_public_attributes(), voucher.get_public_attributes());
    assert_eq!(
        voucher.get_public_attributes_plain(),
        voucher.get_public_attributes_plain()
    );
    assert_eq!(voucher.get_private_attributes(), voucher.get_private_attributes());
    assert_eq!(
        voucher.pedersen_commitments_openings(),
        voucher.pedersen_commitments_openings()
    );
    assert_eq!(voucher.blind_sign_request(), voucher.blind_sign_request());
    assert_eq!(voucher.use_request(), voucher.use_request());
    assert_eq!(
        voucher.encryption_key().to_bytes(),
        voucher.encryption_key().to_bytes()
    );
}

#[test]
fn signature_binds_request_and_deposit() {
    let mut rng = OsRng;
    let pair = identity::KeyPair::new(&mut rng);
    let request = BlindSignRequest::from_bytes(vec![10, 20, 30, 40]);
    let voucher = BandwidthVoucher::new_with_blind_sign_req(
        [random_scalar(), random_scalar()],
        ["1234", "voucher info"],
        TxHash::new([5; 32]),
        signing_key(&pair),
        encryption_key(),
        vec![],
        BlindSignRequest::from_bytes(vec![10, 20, 30, 40]),
    );
    let sig = voucher.sign(&request);
    let mut message = vec![10u8, 20, 30, 40];
    message.extend_from_slice(&[5u8; 32]);
    let signature = identity::Signature::from_bytes(&sig).unwrap();
    assert!(pair.public_key().verify(&message, &signature).is_ok());
    assert_eq!(sig, pair.private_key().sign(&message).to_bytes());
    assert_eq!(sig, voucher.sign(&request));
    let other = BlindSignRequest::from_bytes(vec![10, 20, 30, 41]);
    assert_ne!(sig, voucher.sign(&other));
    assert!(pair.public_key().verify(&[10, 20, 30, 40], &signature).is_err());
}
