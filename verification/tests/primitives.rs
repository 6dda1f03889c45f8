use peks::constant_time::{all_zero, bytes_equal};
use peks::digest::digest;
use peks::entropy::EntropySource;
use peks::error::PeksError;
use peks::hex::{decode, encode};
use peks::scalar::Scalar;
use peks::scheme::SecretKey;

#[test]
fn digest_of_abc() {
    let expected = decode(
        &b"ba7816bf8f01cfea414140de5dae2223b00361a396177a9cb410ff61f20015ad".to_vec(),
    )
    .unwrap();
    assert_eq!(digest(&b"abc".to_vec()), expected);
}

#[test]
fn digest_of_nothing() {
    let expected = decode(
        &b"e3b0c44298fc1c149afbf4c8996fb92427ae41e4649b934ca495991b7852b855".to_vec(),
    )
    .unwrap();
    assert_eq!(digest(&Vec::new()), expected);
    assert_eq!(digest(&vec![0u8; 32]).len(), 32);
    assert_ne!(digest(&vec![0u8; 32]), vec![0u8; 32]);
}

#[test]
fn hex_of_bytes() {
    assert_eq!(encode(&vec![0x00, 0x01, 0x0a, 0x7f, 0x80, 0xff]), b"00010a7f80ff".to_vec());
    assert_eq!(encode(&Vec::new()), Vec::<u8>::new());
    assert_eq!(encode(&vec![0x9a, 0xbc, 0xde, 0xf0]), b"9abcdef0".to_vec());
}

#[test]
fn bytes_of_hex() {
    assert_eq!(decode(&b"00010a7f80ff".to_vec()), Some(vec![0x00, 0x01, 0x0a, 0x7f, 0x80, 0xff]));
    assert_eq!(decode(&Vec::new()), Some(Vec::new()));
    assert_eq!(decode(&b"0".to_vec()), None);
    assert_eq!(decode(&b"abc".to_vec()), None);
    assert_eq!(decode(&b"0g".to_vec()), None);
    assert_eq!(decode(&b"g0".to_vec()), None);
    assert_eq!(decode(&b"AB".to_vec()), None);
    assert_eq!(decode(&b"a ".to_vec()), None);
    assert_eq!(decode(&b"/0".to_vec()), None);
    assert_eq!(decode(&b":0".to_vec()), None);
    assert_eq!(decode(&b"`0".to_vec()), None);
    assert_eq!(decode(&vec![0xff, 0x30]), None);
}

#[test]
fn hex_round_trip_of_every_byte() {
    let all: Vec<u8> = (0..=255u8).collect();
    let text = encode(&all);
    assert_eq!(text.len(), 512);
    assert_eq!(decode(&text), Some(all));
    assert_eq!(encode(&decode(&text).unwrap()), text);
}

#[test]
fn equality_of_byte_strings() {
    assert!(bytes_equal(&Vec::new(), &Vec::new()));
    assert!(bytes_equal(&vec![1, 2, 3], &vec![1, 2, 3]));
    assert!(!bytes_equal(&vec![1, 2, 3], &vec![1, 2, 4]));
    assert!(!bytes_equal(&vec![0, 2, 3], &vec![1, 2, 3]));
    assert!(!bytes_equal(&vec![1, 2, 3], &vec![1, 2]));
    assert!(!bytes_equal(&vec![1, 2], &vec![1, 2, 3]));
    assert!(!bytes_equal(&vec![0x80], &vec![0x00]));
    assert!(!bytes_equal(&vec![0x0f, 0xf0], &vec![0xf0, 0x0f]));
}

#[test]
fn zero_byte_strings() {
    assert!(all_zero(&Vec::new()));
    assert!(all_zero(&vec![0u8; 32]));
    assert!(!all_zero(&vec![0, 0, 1]));
    assert!(!all_zero(&vec![0x80, 0, 0]));
    assert!(!all_zero(&vec![0, 0x10, 0]));
}

#[test]
fn fixed_source_hands_out_its_bytes_in_order() {
    let mut rng = EntropySource::fixed(vec![1, 2, 3, 4, 5]);
    assert_eq!(rng.draw(2), Some(vec![1, 2]));
    assert_eq!(rng.draw(0), Some(Vec::new()));
    assert_eq!(rng.draw(4), None);
    assert_eq!(rng.draw(3), Some(vec![3, 4, 5]));
    assert_eq!(rng.draw(1), None);
    assert_eq!(rng.draw(0), Some(Vec::new()));
}

#[test]
fn system_source_gives_fresh_bytes() {
    let mut rng = EntropySource::system();
    let first = rng.draw(32).unwrap();
    let second = rng.draw(32).unwrap();
    assert_eq!(first.len(), 32);
    assert_eq!(second.len(), 32);
    assert_ne!(first, second);
    assert_eq!(rng.draw(0), Some(Vec::new()));
    assert_eq!(rng.draw(1000).unwrap().len(), 1000);
}

#[test]
fn scalar_from_a_block_of_entropy() {
    // The block is read as little-endian words, the scalar is written big-endian.
    let mut block = vec![0u8; 32];
    block[0] = 1;
    let one = Scalar::from_entropy(&block).unwrap();
    let mut expected = vec![0u8; 32];
    expected[31] = 1;
    assert_eq!(one.as_bytes(), &expected);

    let block: Vec<u8> = (1..=32u8).collect();
    let scalar = Scalar::from_entropy(&block).unwrap();
    let mut expected: Vec<u8> = Vec::new();
    for word in (0..4usize).rev() {
        for byte in (0..8usize).rev() {
            expected.push(block[8 * word + byte]);
        }
    }
    assert_eq!(scalar.as_bytes(), &expected);
}

#[test]
fn block_that_stands_for_no_scalar() {
    assert!(Scalar::from_entropy(&vec![0u8; 32]).is_none());
    assert!(Scalar::from_entropy(&Vec::new()).is_none());
    assert!(Scalar::from_entropy(&vec![0xffu8; 32]).is_none());
    // The top bit is masked away: what is left here is below the group order.
    let mut block = vec![0u8; 32];
    block[31] = 0x80;
    block[0] = 5;
    let mut expected = vec![0u8; 32];
    expected[31] = 5;
    assert_eq!(Scalar::from_entropy(&block).unwrap().as_bytes(), &expected);
}

#[test]
fn drawing_skips_blocks_that_stand_for_no_scalar() {
    let mut stream = vec![0u8; 32];
    stream.extend(vec![0xffu8; 32]);
    let mut good = vec![0u8; 32];
    good[0] = 9;
    stream.extend(good);
    stream.extend(vec![7u8; 5]);
    let mut rng = EntropySource::fixed(stream);
    let scalar = Scalar::draw(&mut rng).unwrap();
    let mut expected = vec![0u8; 32];
    expected[31] = 9;
    assert_eq!(scalar.as_bytes(), &expected);
    assert_eq!(rng.draw(5), Some(vec![7u8; 5]));
    assert_eq!(rng.draw(1), None);
}

#[test]
fn drawing_from_an_exhausted_source_fails() {
    let mut rng = EntropySource::fixed(vec![1u8; 31]);
    assert_eq!(Scalar::draw(&mut rng).err(), Some(PeksError::RandomnessUnavailable));
    assert_eq!(rng.draw(31), Some(vec![1u8; 31]));
    let mut rng = EntropySource::fixed(Vec::new());
    assert_eq!(SecretKey::generate(&mut rng).err(), Some(PeksError::RandomnessUnavailable));
}

#[test]
fn drawing_gives_up_after_sixty_four_blocks() {
    let mut stream = vec![0xffu8; 64 * 32];
    let mut good = vec![0u8; 32];
    good[0] = 9;
    stream.extend(good.clone());
    let mut rng = EntropySource::fixed(stream);
    assert_eq!(Scalar::draw(&mut rng).err(), Some(PeksError::RandomnessUnavailable));
    assert_eq!(rng.draw(32), Some(good.clone()));

    let mut stream = vec![0xffu8; 63 * 32];
    stream.extend(good);
    let mut rng = EntropySource::fixed(stream);
    let mut expected = vec![0u8; 32];
    expected[31] = 9;
    assert_eq!(Scalar::draw(&mut rng).unwrap().as_bytes(), &expected);
    assert_eq!(rng.draw(1), None);
}

#[test]
fn generated_keys_are_fresh() {
    let mut rng = EntropySource::system();
    let first = SecretKey::generate(&mut rng).unwrap();
    let second = SecretKey::generate(&mut rng).unwrap();
    assert_eq!(first.as_bytes().len(), 32);
    assert_ne!(first.as_bytes(), second.as_bytes());
    assert!(!all_zero(first.as_bytes()));
}

#[test]
fn generation_from_a_fixed_source_can_be_repeated() {
    let stream: Vec<u8> = (0..64u8).collect();
    let mut first = EntropySource::fixed(stream.clone());
    let mut second = EntropySource::fixed(stream);
    let a = SecretKey::generate(&mut first).unwrap();
    let b = SecretKey::generate(&mut second).unwrap();
    assert_eq!(a.as_bytes(), b.as_bytes());
    let pk_a = a.derive_public_key(&mut first).unwrap();
    let pk_b = b.derive_public_key(&mut second).unwrap();
    assert_eq!(pk_a.as_bytes(), pk_b.as_bytes());
    assert_eq!(first.draw(1), None);
}

#[test]
fn error_codes() {
    assert_eq!(PeksError::RandomnessUnavailable.code(), 1);
    assert_eq!(PeksError::MalformedInput.code(), 2);
    assert_eq!(PeksError::EncodingFailure.code(), 3);
    assert_eq!(PeksError::InvalidHandle.code(), 4);
    assert_eq!(PeksError::from_code(0), None);
    assert_eq!(PeksError::from_code(1), Some(PeksError::RandomnessUnavailable));
    assert_eq!(PeksError::from_code(2), Some(PeksError::MalformedInput));
    assert_eq!(PeksError::from_code(3), Some(PeksError::EncodingFailure));
    assert_eq!(PeksError::from_code(4), Some(PeksError::InvalidHandle));
    assert_eq!(PeksError::from_code(5), None);
    assert_eq!(PeksError::from_code(255), None);
}
