use vitaminc::{
    CipherTextBuilder, Controlled, Nonce, NonceGenerator, Protected, ProtectedDigest,
    RandomNonceGenerator, Sha256, Sha384,
};

#[test]
fn test_digest_sha256_finalize() {
    let mut digest: ProtectedDigest<Sha256> = ProtectedDigest::new();
    digest.update(&Protected::new([0u8; 32]));
    let result: Protected<Vec<u8>> = digest.finalize();
    assert_eq!(
        result.risky_unwrap(),
        vec![
            102, 104, 122, 173, 248, 98, 189, 119, 108, 143, 193, 139, 142, 159, 142, 32, 8, 151,
            20, 133, 110, 226, 51, 179, 144, 42, 89, 29, 13, 95, 41, 37
        ]
    );
}

#[test]
fn test_digest_sha256_finalize_into() {
    let mut digest: ProtectedDigest<Sha256> = ProtectedDigest::new();
    digest.update(&Protected::new([0u8; 32]));
    let mut result = Protected::new(Vec::new());
    digest.finalize_into(&mut result);
    assert_eq!(
        result.risky_unwrap(),
        vec![
            102, 104, 122, 173, 248, 98, 189, 119, 108, 143, 193, 139, 142, 159, 142, 32, 8, 151,
            20, 133, 110, 226, 51, 179, 144, 42, 89, 29, 13, 95, 41, 37
        ]
    );
}

#[test]
fn test_digest_sha384() {
    let mut digest: ProtectedDigest<Sha384> = ProtectedDigest::new();
    digest.update(&Protected::new([0u8; 32]));
    let result: Protected<Vec<u8>> = digest.finalize();
    assert_eq!(
        result.risky_unwrap(),
        vec![
            163, 143, 255, 75, 162, 108, 21, 228, 172, 156, 222, 140, 3, 16, 58, 200, 144, 128,
            253, 71, 84, 95, 222, 148, 70, 200, 241, 146, 114, 158, 171, 123, 208, 58, 77, 92, 49,
            135, 247, 95, 226, 167, 27, 14, 229, 10, 74, 64
        ]
    );
}

#[test]
fn test_digest_update_accumulates() {
    let mut split: ProtectedDigest<Sha256> = ProtectedDigest::new();
    split.update(&Protected::new([0u8; 16]));
    split.update(&Protected::new([0u8; 16]));
    let mut whole: ProtectedDigest<Sha256> = ProtectedDigest::new();
    whole.update(&Protected::new([0u8; 32]));
    assert_eq!(
        split.finalize().risky_unwrap(),
        whole.finalize().risky_unwrap()
    );
}

#[test]
fn test_digest_finalize_reset_starts_over() {
    let mut digest: ProtectedDigest<Sha256> = ProtectedDigest::new();
    digest.update(&Protected::new([1u8; 8]));
    let first = digest.finalize_reset();
    digest.update(&Protected::new([1u8; 8]));
    let second = digest.finalize_reset();
    assert_eq!(first.risky_unwrap(), second.risky_unwrap());
}

#[test]
fn test_digest_output_size() {
    assert_eq!(ProtectedDigest::<Sha256>::output_size(), 32);
    assert_eq!(ProtectedDigest::<Sha384>::output_size(), 48);
}

#[test]
fn test_one_shot_digest_matches_streamed() {
    let data = Protected::new([7u8; 20]);
    let one_shot = ProtectedDigest::<Sha256>::digest(&data);
    let mut streamed: ProtectedDigest<Sha256> = ProtectedDigest::new();
    streamed.update(&Protected::new([7u8; 20]));
    assert_eq!(
        one_shot.risky_unwrap(),
        streamed.finalize().risky_unwrap()
    );
}

#[test]
fn test_ciphertext_builder_with_append() {
    let nonce = Nonce::new([1u8; 12]);
    let _staged = CipherTextBuilder::new().append_nonce(nonce);
}

#[test]
fn test_ciphertext_builder_with_plaintext_in_place() {
    let nonce = Nonce::new([1u8; 12]);
    let plaintext: Protected<Vec<u8>> = Protected::new(vec![0u8; 10]);
    let ciphertext = CipherTextBuilder::new()
        .append_nonce(nonce)
        .append_target_plaintext(plaintext)
        .accepts_ciphertext_and_tag_ok(|mut ciphertext: Vec<u8>| {
            ciphertext.copy_from_slice(&[2u8; 10]);
            ciphertext.extend([3u8; 16]);
            Ok::<_, ()>(ciphertext)
        })
        .build()
        .unwrap();

    let v = ciphertext.into_inner();
    assert_eq!(v.len(), 38);
    assert_eq!(&v[..12], &[1u8; 12]);
    assert_eq!(&v[12..22], &[2u8; 10]);
    assert_eq!(&v[22..], &[3u8; 16]);
}

#[test]
fn test_ciphertext_reader() {
    let nonce = Nonce::new([1u8; 12]);
    let plaintext: Protected<Vec<u8>> = Protected::new(vec![0u8; 10]);

    let ciphertext = CipherTextBuilder::new()
        .append_nonce(nonce)
        .append_target_plaintext(plaintext)
        .accepts_ciphertext_and_tag_ok(|mut ciphertext: Vec<u8>| {
            ciphertext.copy_from_slice(&[2u8; 10]);
            ciphertext.extend([3u8; 16]);
            Ok::<_, ()>(ciphertext)
        })
        .build()
        .unwrap();

    let (nonce, reader) = ciphertext.into_reader().read_nonce::<12>();

    let plaintext = reader
        .accepts_plaintext_ok(|mut data: Vec<u8>| {
            assert_eq!(data.len(), 26);
            assert_eq!(&data[..10], [2u8; 10]);
            assert_eq!(&data[10..], [3u8; 16]);
            // Write in the same way a hardware cipher would
            data[..10].copy_from_slice(&[0u8; 10]);
            Ok::<_, ()>(data)
        })
        .read()
        .unwrap();

    assert_eq!(nonce.into_inner(), [1u8; 12]);
    assert_eq!(plaintext.risky_unwrap()[..10], vec![0u8; 10]);
}

#[test]
fn test_cipher_error_passes_through() {
    let nonce = Nonce::new([1u8; 12]);
    let plaintext: Protected<Vec<u8>> = Protected::new(vec![0u8; 4]);
    let r = CipherTextBuilder::new()
        .append_nonce(nonce)
        .append_target_plaintext(plaintext)
        .accepts_ciphertext_and_tag_ok(|_data: Vec<u8>| Err::<Vec<u8>, &str>("cipher failed"))
        .build();
    match r {
        Err(e) => assert_eq!(e, "cipher failed"),
        Ok(_) => panic!("expected the cipher's error to pass through"),
    }
}

#[test]
fn test_random_nonce_generator_produces_nonces() {
    let mut generator: RandomNonceGenerator<12> = RandomNonceGenerator::init();
    let a = generator.generate();
    let b = generator.generate();
    assert_eq!(a.into_inner().len(), 12);
    assert_eq!(b.into_inner().len(), 12);
}

struct XorCipher(u8);

struct CountingNonces(u8);

impl vitaminc::NonceGenerator<12> for CountingNonces {
    fn init() -> Self {
        CountingNonces(0)
    }

    fn generate(&mut self) -> Nonce<12> {
        self.0 = self.0.wrapping_add(1);
        Nonce::new([self.0; 12])
    }
}

impl vitaminc::AeadCore<12> for XorCipher {
    type Error = &'static str;

    fn encrypt_with_aad(
        &self,
        plaintext: Protected<Vec<u8>>,
        nonce: Nonce<12>,
        aad: &vitaminc::Aad,
    ) -> Result<vitaminc::CipherText, Self::Error> {
        let mask = self.0 ^ aad.as_slice().iter().fold(0u8, |a, b| a ^ b);
        CipherTextBuilder::new()
            .append_nonce(nonce)
            .append_target_plaintext(plaintext)
            .accepts_ciphertext_and_tag_ok(|mut data: Vec<u8>| {
                for b in data.iter_mut() {
                    *b ^= mask;
                }
                data.extend([mask; 16]);
                Ok(data)
            })
            .build()
    }

    fn decrypt_with_aad(
        &self,
        ciphertext: vitaminc::CipherText,
        aad: &vitaminc::Aad,
    ) -> Result<Protected<Vec<u8>>, Self::Error> {
        let mask = self.0 ^ aad.as_slice().iter().fold(0u8, |a, b| a ^ b);
        let (_nonce, reader) = ciphertext.into_reader().read_nonce::<12>();
        reader
            .accepts_plaintext_ok(|mut data: Vec<u8>| {
                if data.len() < 16 || data[data.len() - 16..] != [mask; 16] {
                    return Err("bad tag");
                }
                data.truncate(data.len() - 16);
                for b in data.iter_mut() {
                    *b ^= mask;
                }
                Ok(data)
            })
            .read()
    }
}

#[test]
fn test_aead_round_trip() {
    let input: vitaminc::Exportable<Protected<String>> =
        vitaminc::Exportable::new("Hello".to_string());
    let mut aead: vitaminc::Aead<12, XorCipher, CountingNonces> = vitaminc::Aead::new(XorCipher(0x5a));
    let ciphertext = aead.encrypt(&input).ok().unwrap();
    let pt: vitaminc::Exportable<vitaminc::Equatable<Protected<String>>> =
        aead.decrypt(ciphertext).ok().unwrap();

    assert!(pt == vitaminc::Equatable::<Protected<String>>::new("Hello".to_string()));
}

#[test]
fn test_aead_round_trip_with_correct_aad() {
    let aad = vitaminc::Aad::new(b"public-AAD".to_vec());
    let aad2 = vitaminc::Aad::new(b"public-AAD".to_vec());
    let input: vitaminc::Exportable<Protected<String>> =
        vitaminc::Exportable::new("Hello".to_string());
    let mut aead: vitaminc::Aead<12, XorCipher, CountingNonces> = vitaminc::Aead::new(XorCipher(0x5a));
    let ciphertext = aead.encrypt_with_aad(&input, &aad).ok().unwrap();
    let pt: vitaminc::Exportable<vitaminc::Equatable<Protected<String>>> =
        aead.decrypt_with_aad(ciphertext, &aad2).ok().unwrap();

    assert!(pt == vitaminc::Equatable::<Protected<String>>::new("Hello".to_string()));
}

#[test]
fn test_aead_round_trip_with_wrong_aad() {
    let aad = vitaminc::Aad::new(b"public-AAD".to_vec());
    let wrong = vitaminc::Aad::new(b"WRONG".to_vec());
    let input: vitaminc::Exportable<Protected<String>> =
        vitaminc::Exportable::new("Hello".to_string());
    let mut aead: vitaminc::Aead<12, XorCipher, CountingNonces> = vitaminc::Aead::new(XorCipher(0x5a));
    let ciphertext = aead.encrypt_with_aad(&input, &aad).ok().unwrap();
    let pt: Result<vitaminc::Exportable<vitaminc::Equatable<Protected<String>>>, _> =
        aead.decrypt_with_aad(ciphertext, &wrong);

    assert!(pt.is_err());
}

#[test]
fn test_digest_output_into_protected_array() {
    let digest = ProtectedDigest::<Sha256>::digest(&Protected::new([0u8; 32]));
    let arr: Protected<[u8; 32]> =
        Protected::from_digest_bytes(digest.risky_unwrap()).unwrap();
    assert_eq!(
        arr.risky_unwrap()[..4],
        [102, 104, 122, 173]
    );
    let too_short: Option<Protected<[u8; 48]>> = Protected::from_digest_bytes(vec![0u8; 32]);
    assert!(too_short.is_none());
}
