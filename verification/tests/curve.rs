use a2l::adaptor::{decsig, encsign, encsign_with, encverify, recover, EncryptedSignature};
use a2l::der;
use a2l::dleq;
use a2l::ecdsa::{sign, verify, Signature};
use a2l::secp256k1::{KeyPair, PublicKey, Scalar, SecretKey};
use a2l::Error;

const ORDER: &str = "fffffffffffffffffffffffffffffffebaaedce6af48a03bbfd25e8cd0364141";
const ORDER_MINUS_ONE: &str = "fffffffffffffffffffffffffffffffebaaedce6af48a03bbfd25e8cd0364140";
const HALF_ORDER: &str = "7fffffffffffffffffffffffffffffff5d576e7357a4501ddfe92f46681b20a0";
const HALF_ORDER_PLUS_ONE: &str =
    "7fffffffffffffffffffffffffffffff5d576e7357a4501ddfe92f46681b20a1";
const G: &str = "0279be667ef9dcbbac55a06295ce870b07029bfcdb2dce28d959f2815b16f81798";
const MINUS_G: &str = "0379be667ef9dcbbac55a06295ce870b07029bfcdb2dce28d959f2815b16f81798";
const TWO_G: &str = "02c6047f9441ed7d6d3045406e95c07cd85c778e4b8cef3ca7abac09b95c709ee5";
const THREE_G: &str = "02f9308a019258c31049344f85f89d5229b531c845836f99b08601f113bce036f9";
const SIX_G: &str = "03fff97bd5755eeea420453a14355235d382f6472f8568a18b2f057a1460297556";

fn unhex(s: &str) -> Vec<u8> {
    (0..s.len() / 2)
        .map(|i| u8::from_str_radix(&s[2 * i..2 * i + 2], 16).unwrap())
        .collect()
}

fn hex(bytes: &[u8]) -> String {
    bytes.iter().map(|b| format!("{:02x}", b)).collect()
}

fn bytes32(s: &str) -> [u8; 32] {
    let mut out = [0u8; 32];
    out.copy_from_slice(&unhex(s));
    out
}

fn bytes33(s: &str) -> [u8; 33] {
    let mut out = [0u8; 33];
    out.copy_from_slice(&unhex(s));
    out
}

fn small(n: u8) -> [u8; 32] {
    let mut out = [0u8; 32];
    out[31] = n;
    out
}

fn scalar(n: u8) -> Scalar {
    Scalar::from_bytes(small(n)).unwrap()
}

fn secret(n: u8) -> SecretKey {
    SecretKey::from_bytes(small(n)).unwrap()
}

fn pair(n: u8) -> KeyPair {
    KeyPair::from_secret_key(secret(n))
}

fn sha256(data: &[u8]) -> [u8; 32] {
    bitcoin::hashes::Hash::to_byte_array(
        <bitcoin::hashes::sha256::Hash as bitcoin::hashes::Hash>::hash(data),
    )
}

#[test]
fn scalar_is_read_only_below_the_order() {
    assert!(Scalar::from_bytes(bytes32(ORDER)).is_none());
    assert!(Scalar::from_bytes([0xff; 32]).is_none());
    let top = Scalar::from_bytes(bytes32(ORDER_MINUS_ONE)).unwrap();
    assert_eq!(hex(&top.to_bytes()), ORDER_MINUS_ONE);
    let zero = Scalar::from_bytes([0; 32]).unwrap();
    assert!(zero.is_zero());
    assert!(Scalar::zero().eq(&zero));
    assert!(!top.is_zero());
}

#[test]
fn scalar_reduction_subtracts_the_order() {
    assert!(Scalar::from_bytes_reduced(bytes32(ORDER)).is_zero());
    assert!(Scalar::from_bytes_reduced(small(5)).eq(&scalar(5)));
    // 2^256 - 1 = order + (2^256 - 1 - order)
    let reduced = Scalar::from_bytes_reduced([0xff; 32]);
    assert_eq!(
        hex(&reduced.to_bytes()),
        "000000000000000000000000000000014551231950b75fc4402da1732fc9bebe"
    );
}

#[test]
fn secret_key_is_a_scalar_other_than_zero() {
    assert!(SecretKey::from_bytes([0; 32]).is_none());
    assert!(SecretKey::from_bytes(bytes32(ORDER)).is_none());
    assert!(SecretKey::from_scalar(Scalar::zero()).is_none());
    assert_eq!(secret(7).to_bytes(), small(7));
    assert!(secret(7).to_scalar().eq(&scalar(7)));
}

#[test]
fn scalar_arithmetic_is_modulo_the_order() {
    let top = Scalar::from_bytes(bytes32(ORDER_MINUS_ONE)).unwrap();
    assert!(scalar(2).times(&scalar(3)).eq(&scalar(6)));
    assert!(top.plus(&scalar(2)).eq(&scalar(1)));
    assert!(scalar(1).negate().eq(&top));
    assert!(Scalar::zero().negate().is_zero());
    // (-1)(-1) = 1
    assert!(top.times(&top).eq(&scalar(1)));
    assert!(!scalar(2).eq(&scalar(3)));
}

#[test]
fn scalar_inverse_known_answer() {
    let ones = Scalar::from_bytes([1; 32]).unwrap();
    let inverse = ones.invert();
    assert_eq!(
        hex(&inverse.to_bytes()),
        "1536f1d756d1abf83aaf173bc5ee3fc487c93010f18624d80bd6d4038fadd59e"
    );
    assert!(ones.times(&inverse).eq(&scalar(1)));
    assert!(inverse.invert().eq(&ones));
}

#[test]
fn scalar_is_low_up_to_half_the_order() {
    let half = Scalar::from_bytes(bytes32(HALF_ORDER)).unwrap();
    let above = Scalar::from_bytes(bytes32(HALF_ORDER_PLUS_ONE)).unwrap();
    assert!(half.is_low());
    assert!(!above.is_low());
    assert!(Scalar::zero().is_low());
    assert!(scalar(1).is_low());
    // half + (half + 1) = order, so each is the other's negative
    assert!(above.folded().eq(&half));
    assert!(half.folded().eq(&half));
    let top = Scalar::from_bytes(bytes32(ORDER_MINUS_ONE)).unwrap();
    assert!(top.folded().eq(&scalar(1)));
}

#[test]
fn generator_multiples_known_answers() {
    assert_eq!(hex(&pair(1).to_pk().to_bytes()), G);
    assert_eq!(hex(&pair(2).to_pk().to_bytes()), TWO_G);
    assert_eq!(hex(&pair(3).to_pk().to_bytes()), THREE_G);
    let minus_one = SecretKey::from_bytes(bytes32(ORDER_MINUS_ONE)).unwrap();
    assert_eq!(hex(&PublicKey::from_secret_key(&minus_one).to_bytes()), MINUS_G);
}

#[test]
fn point_operations_follow_the_logarithms() {
    let g = pair(1).to_pk();
    let two_g = pair(2).to_pk();
    assert_eq!(hex(&g.times(&secret(3)).to_bytes()), THREE_G);
    assert_eq!(hex(&two_g.times(&secret(3)).to_bytes()), SIX_G);
    assert_eq!(hex(&g.plus(&two_g).unwrap().to_bytes()), THREE_G);
    // doubling goes through the same addition
    assert_eq!(hex(&g.plus(&g).unwrap().to_bytes()), TWO_G);
    let minus_g = PublicKey::from_bytes(bytes33(MINUS_G)).unwrap();
    assert!(g.plus(&minus_g).is_none());
    assert!(g.scaled(&Scalar::zero()).is_none());
    assert!(PublicKey::generator_scaled(&Scalar::zero()).is_none());
    assert_eq!(
        hex(&PublicKey::generator_scaled(&scalar(2)).unwrap().to_bytes()),
        TWO_G
    );
    let sum = PublicKey::sum(PublicKey::generator_scaled(&scalar(1)), g.scaled(&scalar(2)));
    assert_eq!(hex(&sum.unwrap().to_bytes()), THREE_G);
    assert!(PublicKey::sum(None, None).is_none());
    assert!(PublicKey::sum(Some(g), Some(minus_g)).is_none());
    assert!(PublicKey::sum(Some(g), None).unwrap().eq(&g));
}

#[test]
fn point_is_read_only_from_an_encoding_of_a_point() {
    assert!(PublicKey::from_bytes(bytes33(G)).unwrap().eq(&pair(1).to_pk()));
    // no point of the curve has the abscissa zero
    let mut zero = [0u8; 33];
    zero[0] = 0x02;
    assert!(PublicKey::from_bytes(zero).is_none());
    // the parity byte is 2 or 3
    let mut bad_tag = bytes33(G);
    bad_tag[0] = 0x04;
    assert!(PublicKey::from_bytes(bad_tag).is_none());
    // an abscissa that is not below the field's prime
    let mut wide = [0xffu8; 33];
    wide[0] = 0x02;
    assert!(PublicKey::from_bytes(wide).is_none());
}

#[test]
fn points_sort_by_their_encoding() {
    let g = pair(1).to_pk();
    let minus_g = PublicKey::from_bytes(bytes33(MINUS_G)).unwrap();
    assert!(g.sorts_before(&minus_g));
    assert!(!minus_g.sorts_before(&g));
    assert!(!g.sorts_before(&g));
    assert!(!g.eq(&minus_g));
}

#[test]
fn abscissa_is_shared_by_a_point_and_its_negative() {
    let g = pair(1).to_pk();
    let minus_g = PublicKey::from_bytes(bytes33(MINUS_G)).unwrap();
    assert_eq!(hex(&g.abscissa().to_bytes()), &G[2..]);
    assert!(g.abscissa().eq(&minus_g.abscissa()));
    assert_eq!(hex(&pair(6).to_pk().abscissa().to_bytes()), &SIX_G[2..]);
}

#[test]
fn random_key_pairs_match() {
    let mut rng = rand::thread_rng();
    let a = KeyPair::random(&mut rng);
    let b = KeyPair::random(&mut rng);
    assert!(PublicKey::from_secret_key(&a.to_sk()).eq(&a.to_pk()));
    assert!(!a.to_pk().eq(&b.to_pk()));
    assert!(a.into_sk().to_scalar().eq(&a.to_sk().to_scalar()));
}

#[test]
fn sign_known_answer() {
    let digest = sha256(b"Satoshi Nakamoto");
    let sig = sign(&digest, &pair(1));
    assert_eq!(
        hex(&sig.to_bytes()),
        "934b1ea10a4b3c1757e2b0c017d0b6143ce3c9a7e6a4a49860d7a6ab210ee3d8\
         2442ce9d2b916064108014783e923ec36b49743e2ffa1c4496f01a512aafd9e5"
    );
    assert!(sig.is_low());
    assert_eq!(verify(&digest, &sig, &pair(1).to_pk()), Ok(()));
}

#[test]
fn verify_refuses_what_was_not_signed() {
    let digest = sha256(b"pay the receiver");
    let other = sha256(b"pay the tumbler");
    let sig = sign(&digest, &pair(5));
    assert_eq!(verify(&digest, &sig, &pair(5).to_pk()), Ok(()));
    assert_eq!(verify(&other, &sig, &pair(5).to_pk()), Err(Error::BadSignature));
    assert_eq!(verify(&digest, &sig, &pair(6).to_pk()), Err(Error::BadSignature));
    let zero_r = Signature::new(Scalar::zero(), sig.s());
    let zero_s = Signature::new(sig.r(), Scalar::zero());
    assert_eq!(verify(&digest, &zero_r, &pair(5).to_pk()), Err(Error::BadSignature));
    assert_eq!(verify(&digest, &zero_s, &pair(5).to_pk()), Err(Error::BadSignature));
}

#[test]
fn verify_accepts_either_sign_of_s() {
    let digest = sha256(b"either sign");
    let sig = sign(&digest, &pair(9));
    let high = Signature::new(sig.r(), sig.s().negate());
    assert!(!high.is_low());
    assert_eq!(verify(&digest, &high, &pair(9).to_pk()), Ok(()));
    assert_eq!(high.normalized().to_bytes(), sig.to_bytes());
}

#[test]
fn signatures_verify_under_another_implementation() {
    let mut rng = rand::thread_rng();
    let secp = bitcoin::secp256k1::Secp256k1::verification_only();
    for round in 0..8u8 {
        let keypair = KeyPair::random(&mut rng);
        let digest = sha256(&[round]);
        let sig = sign(&digest, &keypair);
        let message = bitcoin::secp256k1::Message::from_digest(digest);
        let theirs = bitcoin::secp256k1::ecdsa::Signature::from_compact(&sig.to_bytes()).unwrap();
        let key = bitcoin::secp256k1::PublicKey::from_slice(&keypair.to_pk().to_bytes()).unwrap();
        assert!(secp.verify_ecdsa(&message, &theirs, &key).is_ok());
        assert_eq!(theirs.serialize_der().to_vec(), der::encode(&sig));
    }
}

#[test]
fn verify_agrees_with_the_curve_library() {
    let mut rng = rand::thread_rng();
    let mut accepted = 0;
    for round in 0..24u8 {
        let keypair = KeyPair::random(&mut rng);
        let other = KeyPair::random(&mut rng);
        let digest = sha256(&[round, 7]);
        let sig = sign(&digest, &keypair);
        let cases = [
            (digest, sig, keypair.to_pk()),
            (digest, sig, other.to_pk()),
            (sha256(&[round, 8]), sig, keypair.to_pk()),
            (digest, Signature::new(sig.r(), sig.s().negate()), keypair.to_pk()),
            (digest, Signature::new(sig.r().plus(&scalar(1)), sig.s()), keypair.to_pk()),
            (digest, Signature::new(sig.s(), sig.r()), keypair.to_pk()),
            (digest, Signature::new(Scalar::zero(), sig.s()), keypair.to_pk()),
            (digest, Signature::new(sig.r(), Scalar::zero()), keypair.to_pk()),
            ([0; 32], sig, keypair.to_pk()),
            (bytes32(ORDER), sign(&[0; 32], &keypair), keypair.to_pk()),
        ];
        for (digest, sig, key) in cases {
            let theirs = libsecp256k1::verify(
                &libsecp256k1::Message::parse(&digest),
                &libsecp256k1::Signature::parse_standard(&sig.to_bytes()).unwrap(),
                &libsecp256k1::PublicKey::parse_compressed(&key.to_bytes()).unwrap(),
            );
            assert_eq!(verify(&digest, &sig, &key).is_ok(), theirs);
            if theirs {
                accepted += 1;
            }
        }
    }
    // the signature, the same with the other sign of s, and the one over the
    // digest that reduces to zero
    assert_eq!(accepted, 3 * 24);
}

#[test]
fn signature_on_the_wire_is_low() {
    let digest = sha256(b"wire");
    let sig = sign(&digest, &pair(3));
    let bytes = sig.to_bytes();
    assert_eq!(Signature::from_bytes(bytes).unwrap().to_bytes(), bytes);
    let high = Signature::new(sig.r(), sig.s().negate());
    assert!(Signature::from_bytes(high.to_bytes()).is_none());
    let mut wide = bytes;
    wide[..32].copy_from_slice(&unhex(ORDER));
    assert!(Signature::from_bytes(wide).is_none());
}

#[test]
fn der_known_answers() {
    let digest = sha256(b"Satoshi Nakamoto");
    let sig = sign(&digest, &pair(1));
    // r has its first bit set and takes a zero byte in front
    assert_eq!(
        hex(&der::encode(&sig)),
        "3045022100934b1ea10a4b3c1757e2b0c017d0b6143ce3c9a7e6a4a49860d7a6ab210ee3d8\
         02202442ce9d2b916064108014783e923ec36b49743e2ffa1c4496f01a512aafd9e5"
    );
    // small numbers take one byte each, zero too
    assert_eq!(hex(&der::encode(&Signature::new(scalar(1), scalar(2)))), "3006020101020102");
    assert_eq!(hex(&der::encode(&Signature::new(scalar(0x80), Scalar::zero()))), "300702020080020100");
    let mut witness = der::encode(&sig);
    witness.push(0x01);
    assert_eq!(der::encode_for_witness(&sig), witness);
}

#[test]
fn der_parse_is_the_inverse_of_encode() {
    let digest = sha256(b"round trip");
    for n in 1..20u8 {
        let sig = sign(&digest, &pair(n));
        let parsed = der::parse(&der::encode(&sig)).unwrap();
        assert_eq!(parsed.to_bytes(), sig.to_bytes());
        let parsed = der::parse_from_witness(&der::encode_for_witness(&sig)).unwrap();
        assert_eq!(parsed.to_bytes(), sig.to_bytes());
    }
    let small = Signature::new(scalar(1), scalar(2));
    assert_eq!(der::parse(&unhex("3006020101020102")).unwrap().to_bytes(), small.to_bytes());
}

#[test]
fn der_parse_refuses_other_bytes() {
    let good = unhex("3008020200810202009a");
    assert!(der::parse(&good).is_some());
    // a needless zero byte in front of r
    assert!(der::parse(&unhex("300702020001020102")).is_none());
    // r with its first bit set and no zero byte in front
    assert!(der::parse(&unhex("3006020181020102")).is_none());
    // a wrong tag, a wrong length, a byte too many, a byte too few
    assert!(der::parse(&unhex("3106020101020102")).is_none());
    assert!(der::parse(&unhex("3007020101020102")).is_none());
    assert!(der::parse(&unhex("300602010102010200")).is_none());
    assert!(der::parse(&unhex("30060201010201")).is_none());
    assert!(der::parse(&[]).is_none());
    // r equal to the group order
    let mut wide = unhex("3026022100");
    wide.extend(unhex(ORDER));
    wide.extend(unhex("020101"));
    assert!(der::parse(&wide).is_none());
    // a witness item without the hash type, or with another
    assert!(der::parse_from_witness(&unhex("3006020101020102")).is_none());
    assert!(der::parse_from_witness(&unhex("300602010102010202")).is_none());
    assert!(der::parse_from_witness(&unhex("300602010102010201")).is_some());
}

#[test]
fn dleq_proof_holds_for_one_logarithm_only() {
    let base = pair(7).to_pk();
    let k = secret(11);
    let proof = dleq::prove(&k, &base, &secret(13));
    let r_hat = PublicKey::from_secret_key(&k);
    let r = base.times(&k);
    assert!(dleq::verify(&base, &r_hat, &r, &proof));
    // the same proof with the nonce again: proving is a function of its inputs
    let again = dleq::prove(&k, &base, &secret(13));
    assert_eq!(again.challenge().to_bytes(), proof.challenge().to_bytes());
    assert_eq!(again.response().to_bytes(), proof.response().to_bytes());
    // another point in place of k·base
    assert!(!dleq::verify(&base, &r_hat, &base.times(&secret(12)), &proof));
    // another base
    assert!(!dleq::verify(&pair(8).to_pk(), &r_hat, &r, &proof));
    // a changed response, a changed challenge
    let changed = dleq::Proof::new(proof.challenge(), proof.response().plus(&scalar(1)));
    assert!(!dleq::verify(&base, &r_hat, &r, &changed));
    let changed = dleq::Proof::new(proof.challenge().plus(&scalar(1)), proof.response());
    assert!(!dleq::verify(&base, &r_hat, &r, &changed));
}

#[test]
fn encsign_known_answer() {
    let digest = sha256(b"Satoshi Nakamoto");
    let esig = encsign_with(&digest, &pair(1), &pair(2).to_pk(), &secret(3), &secret(4));
    // R = 3·(2·G), R̂ = 3·G
    assert_eq!(hex(&esig.r().to_bytes()), SIX_G);
    assert_eq!(hex(&esig.r_hat().to_bytes()), THREE_G);
    assert_eq!(
        hex(&esig.to_bytes()),
        "03fff97bd5755eeea420453a14355235d382f6472f8568a18b2f057a1460297556\
         02f9308a019258c31049344f85f89d5229b531c845836f99b08601f113bce036f9\
         e0474b4715482d07f96516f238713077cbfc8095a12c42496ba9eff18d216a47\
         0af8b769f4140a1dcef236e8cb427006ea177184acf74006e03192cb2a6194c7\
         20ea263ddc3c1e596cd6a4ba61c75014be46548e06e5c014a094b8617f24be59"
    );
    let sig = decsig(&pair(2), &esig);
    assert_eq!(
        hex(&sig.to_bytes()),
        "fff97bd5755eeea420453a14355235d382f6472f8568a18b2f057a1460297556\
         0fdc5a5c755be97c034d7486e3c767c377592e28870e2ef92a14374da18a6b7d"
    );
}

#[test]
fn adaptor_signature_round_trip() {
    let mut rng = rand::thread_rng();
    for round in 0..8u8 {
        let digest = sha256(&[round, 1]);
        let x = KeyPair::random(&mut rng);
        let y = KeyPair::random(&mut rng);
        let esig = encsign(&digest, &x, &y.to_pk(), &mut rng);
        assert_eq!(encverify(&x.to_pk(), &y.to_pk(), &digest, &esig), Ok(()));
        let sig = decsig(&y, &esig);
        assert!(sig.is_low());
        assert_eq!(verify(&digest, &sig, &x.to_pk()), Ok(()));
        let recovered = recover(&y.to_pk(), &esig, &sig).unwrap();
        assert_eq!(recovered.to_sk().to_bytes(), y.to_sk().to_bytes());
        // the first bit of r is clear, so that its DER integer takes 32 bytes
        assert!(sig.r().to_bytes()[0] < 0x80);
        assert!(der::encode(&sig).len() <= 70);
    }
}

#[test]
fn encverify_refuses_what_was_not_signed() {
    let digest = sha256(b"redeem");
    let x = pair(21);
    let y = pair(22);
    let esig = encsign_with(&digest, &x, &y.to_pk(), &secret(23), &secret(24));
    assert_eq!(encverify(&x.to_pk(), &y.to_pk(), &digest, &esig), Ok(()));
    let bad = Err(Error::BadAdaptorSignature);
    // another digest, another signer, another encryption key
    assert_eq!(encverify(&x.to_pk(), &y.to_pk(), &sha256(b"refund"), &esig), bad);
    assert_eq!(encverify(&pair(25).to_pk(), &y.to_pk(), &digest, &esig), bad);
    assert_eq!(encverify(&x.to_pk(), &pair(25).to_pk(), &digest, &esig), bad);
    // a changed part
    let changed = EncryptedSignature::new(
        esig.r(),
        esig.r_hat(),
        esig.s_hat().plus(&scalar(1)),
        esig.dleq_proof(),
    );
    assert_eq!(encverify(&x.to_pk(), &y.to_pk(), &digest, &changed), bad);
    let changed = EncryptedSignature::new(
        esig.r().times(&secret(2)),
        esig.r_hat(),
        esig.s_hat(),
        esig.dleq_proof(),
    );
    assert_eq!(encverify(&x.to_pk(), &y.to_pk(), &digest, &changed), bad);
    let changed =
        EncryptedSignature::new(esig.r(), esig.r_hat(), Scalar::zero(), esig.dleq_proof());
    assert_eq!(encverify(&x.to_pk(), &y.to_pk(), &digest, &changed), bad);
}

#[test]
fn decsig_with_another_key_does_not_verify() {
    let digest = sha256(b"redeem");
    let x = pair(31);
    let y = pair(32);
    let esig = encsign_with(&digest, &x, &y.to_pk(), &secret(33), &secret(34));
    let sig = decsig(&pair(35), &esig);
    assert_eq!(verify(&digest, &sig, &x.to_pk()), Err(Error::BadSignature));
    assert_eq!(
        recover(&y.to_pk(), &esig, &sig).err(),
        Some(Error::RecoveryFailed)
    );
}

#[test]
fn recover_takes_either_sign_and_nothing_else() {
    let digest = sha256(b"redeem");
    let x = pair(41);
    let y = pair(42);
    let esig = encsign_with(&digest, &x, &y.to_pk(), &secret(43), &secret(44));
    let sig = decsig(&y, &esig);
    let high = Signature::new(sig.r(), sig.s().negate());
    assert_eq!(recover(&y.to_pk(), &esig, &high).unwrap().to_sk().to_bytes(), small(42));
    assert_eq!(recover(&y.to_pk(), &esig, &sig).unwrap().to_sk().to_bytes(), small(42));
    let failed = Some(Error::RecoveryFailed);
    // another r, s zero, a signature of the signer's own, another point
    let other_r = Signature::new(sig.r().plus(&scalar(1)), sig.s());
    assert_eq!(recover(&y.to_pk(), &esig, &other_r).err(), failed);
    let zero_s = Signature::new(sig.r(), Scalar::zero());
    assert_eq!(recover(&y.to_pk(), &esig, &zero_s).err(), failed);
    assert_eq!(recover(&y.to_pk(), &esig, &sign(&digest, &x)).err(), failed);
    assert_eq!(recover(&pair(45).to_pk(), &esig, &sig).err(), failed);
}

#[test]
fn encrypted_signature_on_the_wire() {
    let digest = sha256(b"wire");
    let esig = encsign_with(&digest, &pair(51), &pair(52).to_pk(), &secret(53), &secret(54));
    let bytes = esig.to_bytes();
    assert_eq!(bytes.len(), 162);
    assert_eq!(EncryptedSignature::from_bytes(&bytes).unwrap().to_bytes(), bytes);
    assert!(EncryptedSignature::from_bytes(&bytes[..161]).is_none());
    let mut longer = bytes.clone();
    longer.push(0);
    assert!(EncryptedSignature::from_bytes(&longer).is_none());
    let mut bad_point = bytes.clone();
    bad_point[0] = 0x05;
    assert!(EncryptedSignature::from_bytes(&bad_point).is_none());
    let mut wide = bytes.clone();
    wide[66..98].copy_from_slice(&unhex(ORDER));
    assert!(EncryptedSignature::from_bytes(&wide).is_none());
}

#[test]
fn blinding_comes_off_one_layer_at_a_time() {
    let alpha = scalar(17);
    let beta = Scalar::from_bytes([3; 32]).unwrap();
    let tau = Scalar::from_bytes([5; 32]).unwrap();
    let blinded = tau.times(&beta.times(&alpha));
    assert!(blinded.times(&beta.invert()).eq(&tau.times(&alpha)));
    assert!(blinded.times(&tau.invert()).eq(&beta.times(&alpha)));
    assert!(blinded.times(&tau.invert()).times(&beta.invert()).eq(&alpha));
}
