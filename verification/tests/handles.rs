use peks::c_api::{
    gen_secret_key, peks_encrypt_keyword, peks_free_ciphertext, peks_free_public_key,
    peks_free_secret_key, peks_free_trapdoor, peks_gen_public_key, peks_gen_trapdoor, peks_test,
    CPeksCiphertext, CPeksPublicKey, CPeksSecretKey, CPeksTrapdoor,
};
use peks::entropy::EntropySource;
use peks::error::PeksError;
use peks::scalar::Scalar;
use peks::scheme::{Ciphertext, PublicKey, SecretKey, Trapdoor};

const ONE: &str = "0000000000000000000000000000000000000000000000000000000000000001";

const G2_GENERATOR: &str = "93e02b6052719f607dacd3a088274f65596bd0d09920b61ab5da61bbdc7f5049334cf11213945d57e5ac7d055d042b7e024aa2b2f08f0a91260805272dc51051c6e47ad4fa403b02b4510b647ae3d1770bac0326a805bbefd48056c8c121bdb8";

const G1_GENERATOR: &str = "97f1d3a73197d7942695638c4fa9ac0fc3688c4f9774b905a14e3a3f171bac586c55e83ff97a1aeffb3af00adb22c6bb";

fn secret_text(scalar: &str) -> Vec<u8> {
    format!("{{\"secret_key\":\"{}\",\"version\":\"01\"}}", scalar).into_bytes()
}

fn public_text(point: &str) -> Vec<u8> {
    format!("{{\"public_key\":\"{}\",\"version\":\"01\"}}", point).into_bytes()
}

fn trapdoor_text(point: &str) -> Vec<u8> {
    format!("{{\"trapdoor\":\"{}\",\"version\":\"01\"}}", point).into_bytes()
}

fn ciphertext_text(point: &str, digest: &str) -> Vec<u8> {
    format!(
        "{{\"ciphertext_digest\":\"{}\",\"ciphertext_point\":\"{}\",\"version\":\"01\"}}",
        digest, point
    )
    .into_bytes()
}

fn scalar(value: u8) -> Scalar {
    let mut bytes = vec![0u8; 32];
    bytes[31] = value;
    Scalar::from_bytes(bytes).unwrap()
}

#[test]
fn end_to_end_scenario_through_handles() {
    let mut rng = EntropySource::system();
    let sk = gen_secret_key(&mut rng).unwrap();
    let pk = peks_gen_public_key(&sk, &mut rng).unwrap();
    let ct_yes = peks_encrypt_keyword(&pk, &b"invoice".to_vec(), &mut rng).unwrap();
    let ct_no = peks_encrypt_keyword(&pk, &b"spam".to_vec(), &mut rng).unwrap();
    let td = peks_gen_trapdoor(&sk, &b"invoice".to_vec()).unwrap();
    assert_eq!(peks_test(&ct_yes, &td), Ok(true));
    assert_eq!(peks_test(&ct_no, &td), Ok(false));
    assert_eq!(peks_test(&ct_yes, &td), Ok(true));
    assert_eq!(peks_free_ciphertext(ct_yes), Ok(()));
    assert_eq!(peks_free_ciphertext(ct_no), Ok(()));
    assert_eq!(peks_free_trapdoor(td), Ok(()));
    assert_eq!(peks_free_public_key(pk), Ok(()));
    assert_eq!(peks_free_secret_key(sk), Ok(()));
}

#[test]
fn text_of_a_secret_key() {
    let sk = SecretKey::from_text(&secret_text(ONE)).unwrap();
    let mut expected = vec![0u8; 32];
    expected[31] = 1;
    assert_eq!(sk.as_bytes(), &expected);
    assert_eq!(sk.to_text().unwrap(), secret_text(ONE));
}

#[test]
fn text_of_a_public_key() {
    let sk = SecretKey::from_text(&secret_text(ONE)).unwrap();
    let pk = sk.derive_public_key_blinded(&scalar(5));
    assert_eq!(pk.to_text().unwrap(), public_text(G2_GENERATOR));
    let back = PublicKey::from_text(&public_text(G2_GENERATOR)).unwrap();
    assert_eq!(back.as_bytes(), pk.as_bytes());
}

#[test]
fn text_of_a_trapdoor() {
    let sk = SecretKey::from_text(&secret_text(ONE)).unwrap();
    let td = sk.issue_trapdoor_for_point(&peks::hex::decode(&G1_GENERATOR.as_bytes().to_vec()).unwrap()).unwrap();
    assert_eq!(td.to_text().unwrap(), trapdoor_text(G1_GENERATOR));
    let back = Trapdoor::from_text(&trapdoor_text(G1_GENERATOR)).unwrap();
    assert_eq!(back.as_bytes(), td.as_bytes());
}

#[test]
fn text_of_a_ciphertext() {
    let digest = "000102030405060708090a0b0c0d0e0f101112131415161718191a1b1c1d1e1f";
    let ct = Ciphertext::from_text(&ciphertext_text(G2_GENERATOR, digest)).unwrap();
    let expected: Vec<u8> = (0..32u8).collect();
    assert_eq!(ct.digest(), &expected);
    assert_eq!(
        ct.point(),
        &peks::hex::decode(&G2_GENERATOR.as_bytes().to_vec()).unwrap()
    );
    assert_eq!(ct.to_text().unwrap(), ciphertext_text(G2_GENERATOR, digest));
}

#[test]
fn handles_hold_the_text_of_their_entity() {
    let sk = CPeksSecretKey::from_buffer(secret_text(ONE));
    let mut rng = EntropySource::system();
    let pk = peks_gen_public_key(&sk, &mut rng).unwrap();
    assert_eq!(pk.buffer(), Some(&public_text(G2_GENERATOR)));
    assert!(!pk.is_null());
    let generated = gen_secret_key(&mut rng).unwrap();
    let text = generated.buffer().unwrap().clone();
    assert_eq!(text.len(), secret_text(ONE).len());
    assert!(text.starts_with(b"{\"secret_key\":\""));
    assert!(text.ends_with(b"\",\"version\":\"01\"}"));
    assert!(SecretKey::from_text(&text).is_ok());
}

#[test]
fn round_trip_keeps_the_outcome_of_the_test() {
    let mut rng = EntropySource::system();
    let sk = SecretKey::generate(&mut rng).unwrap();
    let pk = sk.derive_public_key(&mut rng).unwrap();
    let sk2 = SecretKey::from_text(&sk.to_text().unwrap()).unwrap();
    let pk2 = PublicKey::from_text(&pk.to_text().unwrap()).unwrap();
    assert_eq!(sk2.as_bytes(), sk.as_bytes());
    assert_eq!(pk2.as_bytes(), pk.as_bytes());
    for (keyword, other) in [(b"invoice".to_vec(), b"spam".to_vec()), (Vec::new(), vec![0u8])] {
        let ct = pk2.encrypt(&keyword, &mut rng).unwrap();
        let td = sk2.issue_trapdoor(&keyword).unwrap();
        let wrong = sk2.issue_trapdoor(&other).unwrap();
        let ct2 = Ciphertext::from_text(&ct.to_text().unwrap()).unwrap();
        let td2 = Trapdoor::from_text(&td.to_text().unwrap()).unwrap();
        let wrong2 = Trapdoor::from_text(&wrong.to_text().unwrap()).unwrap();
        assert_eq!(ct2.point(), ct.point());
        assert_eq!(ct2.digest(), ct.digest());
        assert_eq!(td2.as_bytes(), td.as_bytes());
        assert_eq!(td.test(&ct), true);
        assert_eq!(td2.test(&ct2), true);
        assert_eq!(td2.test(&ct), true);
        assert_eq!(td.test(&ct2), true);
        assert_eq!(wrong.test(&ct), false);
        assert_eq!(wrong2.test(&ct2), false);
        let ct_handle = CPeksCiphertext::from_buffer(ct.to_text().unwrap());
        let td_handle = CPeksTrapdoor::from_buffer(td.to_text().unwrap());
        let wrong_handle = CPeksTrapdoor::from_buffer(wrong.to_text().unwrap());
        assert_eq!(peks_test(&ct_handle, &td_handle), Ok(true));
        assert_eq!(peks_test(&ct_handle, &wrong_handle), Ok(false));
    }
}

#[test]
fn text_is_read_as_json() {
    let spaced = format!(
        " {{ \"version\" : \"01\" ,\n \"secret_key\" : \"{}\" , \"note\" : \"kept apart\" }} ",
        ONE
    )
    .into_bytes();
    let sk = SecretKey::from_text(&spaced).unwrap();
    assert_eq!(sk.to_text().unwrap(), secret_text(ONE));
    let escaped = format!("{{\"secret_key\":\"{}\",\"\\u0076ersion\":\"\\u00301\"}}", ONE)
        .into_bytes();
    assert_eq!(SecretKey::from_text(&escaped).unwrap().as_bytes(), sk.as_bytes());
}

#[test]
fn text_that_holds_no_secret_key() {
    let upper = "000000000000000000000000000000000000000000000000000000000000000A";
    let lower = "000000000000000000000000000000000000000000000000000000000000000a";
    assert!(SecretKey::from_text(&secret_text(lower)).is_ok());
    let bad: Vec<Vec<u8>> = vec![
        Vec::new(),
        b"{}".to_vec(),
        b"null".to_vec(),
        b"[]".to_vec(),
        b"not json".to_vec(),
        vec![0xff, 0xfe],
        secret_text(upper),
        secret_text(""),
        secret_text("01"),
        secret_text(&"00".repeat(32)),
        secret_text(&"ff".repeat(32)),
        secret_text(&format!("{}00", ONE)),
        format!("{{\"secret_key\":\"{}\"}}", ONE).into_bytes(),
        format!("{{\"secret_key\":\"{}\",\"version\":\"02\"}}", ONE).into_bytes(),
        format!("{{\"secret_key\":\"{}\",\"version\":\"1\"}}", ONE).into_bytes(),
        format!("{{\"secret_key\":\"{}\",\"version\":\"0101\"}}", ONE).into_bytes(),
        format!("{{\"secret_key\":\"{}\",\"version\":1}}", ONE).into_bytes(),
        format!("{{\"secret_key\":\"{}\",\"version\":\"01\",\"extra\":1}}", ONE).into_bytes(),
        format!("{{\"secret_key\":\"{}\",\"version\":\"01\"}} trailing", ONE).into_bytes(),
        format!("{{\"secret_key\":[1],\"version\":\"01\"}}").into_bytes(),
        format!("{{\"Secret_key\":\"{}\",\"version\":\"01\"}}", ONE).into_bytes(),
        public_text(G2_GENERATOR),
        trapdoor_text(G1_GENERATOR),
    ];
    for text in bad {
        assert_eq!(SecretKey::from_text(&text).err(), Some(PeksError::MalformedInput));
        let handle = CPeksSecretKey::from_buffer(text);
        assert_eq!(
            peks_gen_trapdoor(&handle, &b"invoice".to_vec()).err(),
            Some(PeksError::MalformedInput)
        );
        let mut rng = EntropySource::fixed(vec![1u8; 64]);
        assert_eq!(
            peks_gen_public_key(&handle, &mut rng).err(),
            Some(PeksError::MalformedInput)
        );
        assert_eq!(rng.draw(64), Some(vec![1u8; 64]));
    }
}

#[test]
fn text_that_holds_no_public_key() {
    let bad: Vec<Vec<u8>> = vec![
        Vec::new(),
        b"{}".to_vec(),
        public_text(G1_GENERATOR),
        public_text(&"00".repeat(96)),
        public_text(""),
        secret_text(ONE),
        trapdoor_text(G1_GENERATOR),
        format!("{{\"public_key\":\"{}\"}}", G2_GENERATOR).into_bytes(),
        format!("{{\"public_key\":\"{}\",\"version\":\"00\"}}", G2_GENERATOR).into_bytes(),
    ];
    for text in bad {
        assert_eq!(PublicKey::from_text(&text).err(), Some(PeksError::MalformedInput));
        let handle = CPeksPublicKey::from_buffer(text);
        let mut rng = EntropySource::fixed(vec![1u8; 64]);
        assert_eq!(
            peks_encrypt_keyword(&handle, &b"invoice".to_vec(), &mut rng).err(),
            Some(PeksError::MalformedInput)
        );
        assert_eq!(rng.draw(64), Some(vec![1u8; 64]));
    }
}

#[test]
fn text_that_holds_no_ciphertext_or_trapdoor() {
    let digest = "11".repeat(32);
    let good_ct = CPeksCiphertext::from_buffer(ciphertext_text(G2_GENERATOR, &digest));
    let good_td = CPeksTrapdoor::from_buffer(trapdoor_text(G1_GENERATOR));
    assert_eq!(peks_test(&good_ct, &good_td), Ok(false));
    let bad_ct: Vec<Vec<u8>> = vec![
        Vec::new(),
        b"{}".to_vec(),
        ciphertext_text(G1_GENERATOR, &digest),
        ciphertext_text(G2_GENERATOR, &"11".repeat(31)),
        ciphertext_text(G2_GENERATOR, &"11".repeat(33)),
        ciphertext_text(G2_GENERATOR, ""),
        ciphertext_text("", &digest),
        public_text(G2_GENERATOR),
        trapdoor_text(G1_GENERATOR),
        format!("{{\"ciphertext_point\":\"{}\",\"version\":\"01\"}}", G2_GENERATOR).into_bytes(),
        format!("{{\"ciphertext_digest\":\"{}\",\"version\":\"01\"}}", digest).into_bytes(),
        format!(
            "{{\"ciphertext_digest\":\"{}\",\"ciphertext_point\":\"{}\"}}",
            digest, G2_GENERATOR
        )
        .into_bytes(),
    ];
    for text in bad_ct {
        assert_eq!(Ciphertext::from_text(&text).err(), Some(PeksError::MalformedInput));
        let handle = CPeksCiphertext::from_buffer(text);
        assert_eq!(peks_test(&handle, &good_td), Err(PeksError::MalformedInput));
    }
    let bad_td: Vec<Vec<u8>> = vec![
        Vec::new(),
        b"{}".to_vec(),
        trapdoor_text(G2_GENERATOR),
        trapdoor_text(&"00".repeat(48)),
        trapdoor_text(""),
        secret_text(ONE),
        ciphertext_text(G2_GENERATOR, &digest),
        format!("{{\"trapdoor\":\"{}\"}}", G1_GENERATOR).into_bytes(),
    ];
    for text in bad_td {
        assert_eq!(Trapdoor::from_text(&text).err(), Some(PeksError::MalformedInput));
        let handle = CPeksTrapdoor::from_buffer(text);
        assert_eq!(peks_test(&good_ct, &handle), Err(PeksError::MalformedInput));
    }
}

#[test]
fn null_handles_are_invalid() {
    let mut rng = EntropySource::fixed(vec![1u8; 64]);
    let keyword = b"invoice".to_vec();
    assert!(CPeksSecretKey::null().is_null());
    assert_eq!(CPeksSecretKey::null().buffer(), None);
    assert_eq!(
        peks_gen_public_key(&CPeksSecretKey::null(), &mut rng).err(),
        Some(PeksError::InvalidHandle)
    );
    assert_eq!(
        peks_gen_trapdoor(&CPeksSecretKey::null(), &keyword).err(),
        Some(PeksError::InvalidHandle)
    );
    assert_eq!(
        peks_encrypt_keyword(&CPeksPublicKey::null(), &keyword, &mut rng).err(),
        Some(PeksError::InvalidHandle)
    );
    assert_eq!(rng.draw(64), Some(vec![1u8; 64]));
    let ct = CPeksCiphertext::from_buffer(ciphertext_text(G2_GENERATOR, &"11".repeat(32)));
    let td = CPeksTrapdoor::from_buffer(trapdoor_text(G1_GENERATOR));
    assert_eq!(peks_test(&CPeksCiphertext::null(), &td), Err(PeksError::InvalidHandle));
    assert_eq!(peks_test(&ct, &CPeksTrapdoor::null()), Err(PeksError::InvalidHandle));
    assert_eq!(
        peks_test(&CPeksCiphertext::null(), &CPeksTrapdoor::null()),
        Err(PeksError::InvalidHandle)
    );
    // A null handle comes before a malformed one.
    let broken = CPeksCiphertext::from_buffer(b"{}".to_vec());
    assert_eq!(peks_test(&broken, &CPeksTrapdoor::null()), Err(PeksError::InvalidHandle));
    assert_eq!(peks_free_secret_key(CPeksSecretKey::null()), Err(PeksError::InvalidHandle));
    assert_eq!(peks_free_public_key(CPeksPublicKey::null()), Err(PeksError::InvalidHandle));
    assert_eq!(peks_free_ciphertext(CPeksCiphertext::null()), Err(PeksError::InvalidHandle));
    assert_eq!(peks_free_trapdoor(CPeksTrapdoor::null()), Err(PeksError::InvalidHandle));
}

#[test]
fn a_handle_is_released_once() {
    let mut sk = CPeksSecretKey::from_buffer(secret_text(ONE));
    assert_eq!(sk.release(), Ok(()));
    assert!(sk.is_null());
    assert_eq!(sk.release(), Err(PeksError::InvalidHandle));
    assert_eq!(
        peks_gen_trapdoor(&sk, &b"invoice".to_vec()).err(),
        Some(PeksError::InvalidHandle)
    );
    assert_eq!(peks_free_secret_key(sk), Err(PeksError::InvalidHandle));

    let mut pk = CPeksPublicKey::from_buffer(public_text(G2_GENERATOR));
    assert_eq!(pk.release(), Ok(()));
    assert_eq!(pk.release(), Err(PeksError::InvalidHandle));
    let mut rng = EntropySource::system();
    assert_eq!(
        peks_encrypt_keyword(&pk, &b"invoice".to_vec(), &mut rng).err(),
        Some(PeksError::InvalidHandle)
    );

    let mut ct = CPeksCiphertext::from_buffer(ciphertext_text(G2_GENERATOR, &"11".repeat(32)));
    let mut td = CPeksTrapdoor::from_buffer(trapdoor_text(G1_GENERATOR));
    assert_eq!(peks_test(&ct, &td), Ok(false));
    assert_eq!(td.release(), Ok(()));
    assert_eq!(peks_test(&ct, &td), Err(PeksError::InvalidHandle));
    assert_eq!(td.release(), Err(PeksError::InvalidHandle));
    assert_eq!(ct.release(), Ok(()));
    assert_eq!(ct.release(), Err(PeksError::InvalidHandle));
    assert!(ct.is_null() && td.is_null());
}

#[test]
fn releasing_one_handle_leaves_the_others_alone() {
    let mut rng = EntropySource::system();
    let sk = gen_secret_key(&mut rng).unwrap();
    let pk = peks_gen_public_key(&sk, &mut rng).unwrap();
    let keyword = b"invoice".to_vec();
    let first = peks_encrypt_keyword(&pk, &keyword, &mut rng).unwrap();
    let second = peks_encrypt_keyword(&pk, &keyword, &mut rng).unwrap();
    let td = peks_gen_trapdoor(&sk, &keyword).unwrap();
    let kept = second.buffer().unwrap().clone();
    assert_eq!(peks_free_ciphertext(first), Ok(()));
    assert_eq!(peks_free_public_key(pk), Ok(()));
    assert_eq!(peks_free_secret_key(sk), Ok(()));
    let third = CPeksCiphertext::from_buffer(vec![b'x'; kept.len()]);
    assert_eq!(second.buffer(), Some(&kept));
    assert_eq!(peks_test(&second, &td), Ok(true));
    assert_eq!(peks_test(&third, &td), Err(PeksError::MalformedInput));
    assert_eq!(peks_free_ciphertext(third), Ok(()));
    assert_eq!(peks_test(&second, &td), Ok(true));
}

#[test]
fn trapdoor_handles_are_deterministic() {
    let sk = CPeksSecretKey::from_buffer(secret_text(ONE));
    let first = peks_gen_trapdoor(&sk, &b"invoice".to_vec()).unwrap();
    let second = peks_gen_trapdoor(&sk, &b"invoice".to_vec()).unwrap();
    assert_eq!(first.buffer(), second.buffer());
    let third = peks_gen_trapdoor(&sk, &b"spam".to_vec()).unwrap();
    assert_ne!(first.buffer(), third.buffer());
}

#[test]
fn ciphertext_handles_are_randomized() {
    let mut rng = EntropySource::system();
    let sk = CPeksSecretKey::from_buffer(secret_text(ONE));
    let pk = CPeksPublicKey::from_buffer(public_text(G2_GENERATOR));
    let first = peks_encrypt_keyword(&pk, &b"invoice".to_vec(), &mut rng).unwrap();
    let second = peks_encrypt_keyword(&pk, &b"invoice".to_vec(), &mut rng).unwrap();
    assert_ne!(first.buffer(), second.buffer());
    let td = peks_gen_trapdoor(&sk, &b"invoice".to_vec()).unwrap();
    assert_eq!(peks_test(&first, &td), Ok(true));
    assert_eq!(peks_test(&second, &td), Ok(true));
}

#[test]
fn operations_with_a_fixed_source_can_be_repeated() {
    let stream: Vec<u8> = (1..=96u8).collect();
    let mut first = EntropySource::fixed(stream.clone());
    let mut second = EntropySource::fixed(stream);
    let sk1 = gen_secret_key(&mut first).unwrap();
    let sk2 = gen_secret_key(&mut second).unwrap();
    assert_eq!(sk1.buffer(), sk2.buffer());
    let pk1 = peks_gen_public_key(&sk1, &mut first).unwrap();
    let pk2 = peks_gen_public_key(&sk2, &mut second).unwrap();
    assert_eq!(pk1.buffer(), pk2.buffer());
    let ct1 = peks_encrypt_keyword(&pk1, &b"invoice".to_vec(), &mut first).unwrap();
    let ct2 = peks_encrypt_keyword(&pk2, &b"invoice".to_vec(), &mut second).unwrap();
    assert_eq!(ct1.buffer(), ct2.buffer());
    assert_eq!(
        peks_encrypt_keyword(&pk1, &b"invoice".to_vec(), &mut first).err(),
        Some(PeksError::RandomnessUnavailable)
    );
    assert_eq!(gen_secret_key(&mut first).err(), Some(PeksError::RandomnessUnavailable));
    assert_eq!(
        peks_gen_public_key(&sk1, &mut first).err(),
        Some(PeksError::RandomnessUnavailable)
    );
}
