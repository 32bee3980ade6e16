use ecies_group::ecies::{MultiRecipientEncryption, PrivateKey, PublicKey};
use ecies_group::random_oracle::RandomOracle;
use ecies_group::Error;
use fastcrypto::groups::ristretto255::{RistrettoPoint, RistrettoScalar};
use fastcrypto::groups::GroupElement;

fn key_pair(rng: &mut rand::rngs::ThreadRng) -> (PrivateKey, PublicKey) {
    let sk = PrivateKey::new(rng);
    let pk = PublicKey::from_private_key(&sk);
    (sk, pk)
}

#[test]
fn single_recipient_round_trip() {
    let mut rng = rand::thread_rng();
    let (sk, pk) = key_pair(&mut rng);
    let msg = b"the quick brown fox jumps over the lazy dog".to_vec();
    let enc = pk.encrypt(&msg, &mut rng);
    assert_eq!(sk.decrypt(&enc), msg);
    assert_eq!(enc.data().len(), msg.len());
    assert_ne!(enc.data().as_slice(), msg.as_slice());
    assert_eq!(enc.hkdf_info(), 0);
}

#[test]
fn empty_message_round_trip() {
    let mut rng = rand::thread_rng();
    let (sk, pk) = key_pair(&mut rng);
    let enc = pk.encrypt(&[], &mut rng);
    assert_eq!(sk.decrypt(&enc), Vec::<u8>::new());
    assert!(enc.data().is_empty());
}

#[test]
fn partial_decryption_matches_direct_decryption() {
    let mut rng = rand::thread_rng();
    let (sk, pk) = key_pair(&mut rng);
    let msg = b"partial decryption".to_vec();
    let enc = pk.encrypt(&msg, &mut rng);
    let partial = *enc.ephemeral_key() * *sk.as_element();
    assert_eq!(enc.decrypt_from_partial_decryption(&partial), sk.decrypt(&enc));
    assert_eq!(enc.decrypt_from_partial_decryption(&partial), msg);
}

#[test]
fn deterministic_encrypt_is_deterministic() {
    let x = RistrettoScalar::from(11u64);
    let r = RistrettoScalar::from(72u64);
    let x_g = RistrettoPoint::generator() * x;
    let r_g = RistrettoPoint::generator() * r;
    let r_x_g = x_g * r;
    let msg = b"byte-identical inputs".to_vec();
    let e1 = PublicKey::deterministic_encrypt(&msg, &r_g, &r_x_g, 5);
    let e2 = PublicKey::deterministic_encrypt(&msg, &r_g, &r_x_g, 5);
    assert_eq!(e1.data(), e2.data());
    assert_eq!(e1.ephemeral_key(), e2.ephemeral_key());
    assert_eq!(e1.hkdf_info(), e2.hkdf_info());
    // The derived key depends on the info value.
    let e3 = PublicKey::deterministic_encrypt(&msg, &r_g, &r_x_g, 6);
    assert_ne!(e1.data(), e3.data());
    // The holder of x recovers the message through the ephemeral element.
    let sk = PrivateKey::from(x);
    assert_eq!(sk.decrypt(&e1), msg);
}

#[test]
fn randomized_encrypt_differs_between_calls() {
    let mut rng = rand::thread_rng();
    let (_, pk) = key_pair(&mut rng);
    let msg = b"fresh randomness".to_vec();
    let e1 = pk.encrypt(&msg, &mut rng);
    let e2 = pk.encrypt(&msg, &mut rng);
    assert_ne!(e1.ephemeral_key(), e2.ephemeral_key());
    assert_ne!(e1.data(), e2.data());
}

fn batch(
    rng: &mut rand::rngs::ThreadRng,
    msgs: &[Vec<u8>],
) -> (Vec<PrivateKey>, Vec<(PublicKey, Vec<u8>)>) {
    let mut sks = Vec::new();
    let mut pk_and_msgs = Vec::new();
    for msg in msgs {
        let (sk, pk) = key_pair(rng);
        sks.push(sk);
        pk_and_msgs.push((pk, msg.clone()));
    }
    (sks, pk_and_msgs)
}

#[test]
fn multi_recipient_round_trip_and_isolation() {
    let mut rng = rand::thread_rng();
    let msgs = vec![
        b"first message ".to_vec(),
        b"second message".to_vec(),
        b"third message ".to_vec(),
    ];
    let (sks, pk_and_msgs) = batch(&mut rng, &msgs);
    let ro = RandomOracle::new(b"batch-1".to_vec());
    let enc = MultiRecipientEncryption::encrypt(&pk_and_msgs, &ro, &mut rng);
    assert_eq!(enc.len(), 3);
    assert!(!enc.is_empty());
    assert!(enc.verify(&ro).is_ok());
    for i in 0..3 {
        let entry = enc.get_encryption(i).unwrap();
        assert_eq!(entry.hkdf_info(), i);
        assert_eq!(sks[i].decrypt(&entry), msgs[i]);
        for j in 0..3 {
            if j != i {
                assert_ne!(sks[j].decrypt(&entry), msgs[i]);
            }
        }
    }
    assert!(matches!(enc.get_encryption(3), Err(Error::InvalidInput)));
    assert!(matches!(enc.get_encryption(usize::MAX), Err(Error::InvalidInput)));
}

#[test]
fn verify_detects_swapped_entries() {
    let mut rng = rand::thread_rng();
    let msgs = vec![b"entry zero".to_vec(), b"entry one ".to_vec(), b"entry two ".to_vec()];
    let (_, pk_and_msgs) = batch(&mut rng, &msgs);
    let ro = RandomOracle::new(b"batch-swap".to_vec());
    let mut enc = MultiRecipientEncryption::encrypt(&pk_and_msgs, &ro, &mut rng);
    assert!(enc.verify(&ro).is_ok());
    enc.swap_for_testing(0, 2);
    assert_eq!(enc.verify(&ro), Err(Error::InvalidProof));
}

#[test]
fn verify_detects_copied_entries() {
    let mut rng = rand::thread_rng();
    let msgs = vec![b"entry zero".to_vec(), b"entry one ".to_vec()];
    let (_, pk_and_msgs) = batch(&mut rng, &msgs);
    let ro = RandomOracle::new(b"batch-copy".to_vec());
    let mut enc = MultiRecipientEncryption::encrypt(&pk_and_msgs, &ro, &mut rng);
    assert!(enc.verify(&ro).is_ok());
    enc.copy_for_testing(0, 1);
    assert_eq!(enc.verify(&ro), Err(Error::InvalidProof));
}

#[test]
fn verify_detects_mutated_byte() {
    let mut rng = rand::thread_rng();
    let msgs = vec![b"entry zero".to_vec(), b"entry one ".to_vec()];
    let (_, pk_and_msgs) = batch(&mut rng, &msgs);
    let ro = RandomOracle::new(b"batch-mutate".to_vec());
    let enc = MultiRecipientEncryption::encrypt(&pk_and_msgs, &ro, &mut rng);
    let mut cts: Vec<Vec<u8>> = (0..enc.len())
        .map(|i| enc.get_encryption(i).unwrap().data().clone())
        .collect();
    cts[1][3] ^= 0x01;
    let tampered =
        MultiRecipientEncryption::from_parts(*enc.ephemeral_key(), cts, enc.dl_proof().clone());
    assert_eq!(tampered.verify(&ro), Err(Error::InvalidProof));
}

#[test]
fn verify_requires_the_same_oracle() {
    let mut rng = rand::thread_rng();
    let msgs = vec![b"domain separation".to_vec()];
    let (_, pk_and_msgs) = batch(&mut rng, &msgs);
    let ro = RandomOracle::new(b"batch-oracle".to_vec());
    let enc = MultiRecipientEncryption::encrypt(&pk_and_msgs, &ro, &mut rng);
    assert!(enc.verify(&ro).is_ok());
    assert_eq!(enc.verify(&RandomOracle::new(b"other".to_vec())), Err(Error::InvalidProof));
    assert_eq!(enc.verify(&ro.extend(b"segment")), Err(Error::InvalidProof));
}

#[test]
fn verify_rejects_empty_ciphertext() {
    let mut rng = rand::thread_rng();
    let msgs = vec![b"non-empty".to_vec(), Vec::new()];
    let (_, pk_and_msgs) = batch(&mut rng, &msgs);
    let ro = RandomOracle::new(b"batch-empty".to_vec());
    let enc = MultiRecipientEncryption::encrypt(&pk_and_msgs, &ro, &mut rng);
    assert_eq!(enc.verify(&ro), Err(Error::InvalidInput));
}

#[test]
fn empty_batch_verifies() {
    let mut rng = rand::thread_rng();
    let ro = RandomOracle::new(b"batch-none".to_vec());
    let enc = MultiRecipientEncryption::encrypt(&Vec::new(), &ro, &mut rng);
    assert_eq!(enc.len(), 0);
    assert!(enc.is_empty());
    assert!(enc.verify(&ro).is_ok());
}

#[test]
fn recovery_package_round_trip() {
    let mut rng = rand::thread_rng();
    let (sk, pk) = key_pair(&mut rng);
    let msg = b"recovered without the key".to_vec();
    let enc = pk.encrypt(&msg, &mut rng);
    let ro = RandomOracle::new(b"recovery-1".to_vec());
    let pkg = sk.create_recovery_package(&enc, &ro, &mut rng);
    assert_eq!(pk.decrypt_with_recovery_package(&pkg, &ro, &enc), Ok(msg));
}

#[test]
fn recovery_package_with_wrong_key_fails() {
    let mut rng = rand::thread_rng();
    let (sk, pk) = key_pair(&mut rng);
    let (other_sk, _) = key_pair(&mut rng);
    let msg = b"wrong key".to_vec();
    let enc = pk.encrypt(&msg, &mut rng);
    let ro = RandomOracle::new(b"recovery-2".to_vec());
    let pkg = other_sk.create_recovery_package(&enc, &ro, &mut rng);
    assert_eq!(
        pk.decrypt_with_recovery_package(&pkg, &ro, &enc),
        Err(Error::InvalidProof)
    );
    // The honest package fails under a different oracle.
    let honest = sk.create_recovery_package(&enc, &ro, &mut rng);
    let other_ro = RandomOracle::new(b"recovery-3".to_vec());
    assert_eq!(
        pk.decrypt_with_recovery_package(&honest, &other_ro, &enc),
        Err(Error::InvalidProof)
    );
}

#[test]
fn public_key_from_element_matches() {
    let mut rng = rand::thread_rng();
    let sk = PrivateKey::new(&mut rng);
    let pk = PublicKey::from_private_key(&sk);
    let rebuilt = PublicKey::from(RistrettoPoint::generator() * *sk.as_element());
    assert_eq!(pk.as_element(), rebuilt.as_element());
}
