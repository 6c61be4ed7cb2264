use h2c_rust_ref::bigint::reduce;
use h2c_rust_ref::{get_expander, CurveFamily, CurveID, Error, ExpID, Expander, FpHasher, HashID, Sgn0};

fn unhex(s: &str) -> Vec<u8> {
    let digits: Vec<u8> = s
        .bytes()
        .map(|c| match c {
            b'0'..=b'9' => c - b'0',
            b'a'..=b'f' => c - b'a' + 10,
            _ => panic!("not a hex digit"),
        })
        .collect();
    digits.chunks(2).map(|pair| pair[0] * 16 + pair[1]).collect()
}

const CURVES: [CurveID; 9] = [
    CurveID::P256,
    CurveID::P384,
    CurveID::P521,
    CurveID::SECP256K1,
    CurveID::BLS12381G1,
    CurveID::CURVE25519,
    CurveID::CURVE448,
    CurveID::EDWARDS25519,
    CurveID::EDWARDS448,
];

/// Curve, bits of the characteristic, the characteristic.
#[test]
fn characteristics() {
    let table: Vec<(CurveID, usize, &str)> = vec![
        (CurveID::P256, 256, "ffffffff00000001000000000000000000000000ffffffffffffffffffffffff"),
        (CurveID::P384, 384, "fffffffffffffffffffffffffffffffffffffffffffffffffffffffffffffffeffffffff0000000000000000ffffffff"),
        (CurveID::P521, 521, "01ffffffffffffffffffffffffffffffffffffffffffffffffffffffffffffffffffffffffffffffffffffffffffffffffffffffffffffffffffffffffffffffffff"),
        (CurveID::SECP256K1, 256, "fffffffffffffffffffffffffffffffffffffffffffffffffffffffefffffc2f"),
        (CurveID::BLS12381G1, 381, "1a0111ea397fe69a4b1ba7b6434bacd764774b84f38512bf6730d2a0f6b0f6241eabfffeb153ffffb9feffffffffaaab"),
        (CurveID::CURVE25519, 255, "7fffffffffffffffffffffffffffffffffffffffffffffffffffffffffffffed"),
        (CurveID::CURVE448, 448, "fffffffffffffffffffffffffffffffffffffffffffffffffffffffeffffffffffffffffffffffffffffffffffffffffffffffffffffffff"),
        (CurveID::EDWARDS25519, 255, "7fffffffffffffffffffffffffffffffffffffffffffffffffffffffffffffed"),
        (CurveID::EDWARDS448, 448, "fffffffffffffffffffffffffffffffffffffffffffffffffffffffeffffffffffffffffffffffffffffffffffffffffffffffffffffffff"),
    ];
    assert_eq!(table.len(), CURVES.len());
    for (curve, bits, want) in table {
        let p = curve.modulus();
        assert_eq!(p, unhex(want), "{:?}", curve);
        assert_eq!(p.len(), (bits + 7) / 8);
        assert_eq!(8 * p.len() - p[0].leading_zeros() as usize, bits);
    }
}

#[test]
fn families_and_signs() {
    assert_eq!(CurveID::P256.family(), CurveFamily::Weierstrass);
    assert_eq!(CurveID::P384.family(), CurveFamily::Weierstrass);
    assert_eq!(CurveID::P521.family(), CurveFamily::Weierstrass);
    assert_eq!(CurveID::SECP256K1.family(), CurveFamily::Weierstrass);
    assert_eq!(CurveID::BLS12381G1.family(), CurveFamily::Weierstrass);
    assert_eq!(CurveID::CURVE25519.family(), CurveFamily::Montgomery);
    assert_eq!(CurveID::CURVE448.family(), CurveFamily::Montgomery);
    assert_eq!(CurveID::EDWARDS25519.family(), CurveFamily::Edwards);
    assert_eq!(CurveID::EDWARDS448.family(), CurveFamily::Edwards);
    for curve in CURVES {
        let want = if curve == CurveID::BLS12381G1 { Sgn0::BigEndian } else { Sgn0::LittleEndian };
        assert_eq!(curve.sgn0(), want);
    }
}

#[test]
fn reduce_small_numbers() {
    assert_eq!(reduce(&[0x01, 0x00], &[0x07]), vec![4]);
    assert_eq!(reduce(&[], &[0x07]), vec![0]);
    assert_eq!(reduce(&[0x06], &[0x07]), vec![6]);
    assert_eq!(reduce(&[0x07], &[0x07]), vec![0]);
    assert_eq!(reduce(&[0xff, 0xff, 0xff], &[0x01]), vec![0]);
    assert_eq!(reduce(&[0xff, 0xff], &[0x01, 0x00]), vec![0x00, 0xff]);
    assert_eq!(reduce(&[0x12, 0x34, 0x56], &[0x00, 0x00, 0x10]), vec![0, 0, 6]);
    assert_eq!(reduce(&[0x01, 0x00, 0x00, 0x00, 0x00], &[0xff, 0xff]), vec![0x00, 0x01]);
    assert_eq!(reduce(&[0xde, 0xad, 0xbe, 0xef], &[0x01, 0x00, 0x01]), vec![0x00, 0xe0, 0x43]);
}

/// Curve, a number, the number modulo the characteristic.
#[test]
fn reduce_modulo_characteristics() {
    let table: Vec<(CurveID, &str, &str)> = vec![
        (CurveID::P256, "a5", "00000000000000000000000000000000000000000000000000000000000000a5"),
        (CurveID::P256, "4dca182530bb1d6d132cded6237b2ed91e3f721fcb1971174494d6493c9d5c", "004dca182530bb1d6d132cded6237b2ed91e3f721fcb1971174494d6493c9d5c"),
        (CurveID::P256, "3460be31201e69fedaa0eee8b9997f5c7c2999fdafe593253cd654af4dfad714", "3460be31201e69fedaa0eee8b9997f5c7c2999fdafe593253cd654af4dfad714"),
        (CurveID::P256, "27a0aeb3fee9232f8af2211f9ee491c5b10becb5563bfc1e6f93427ecbc8fe2955", "a0aeb425e9232f63f2211f9ee491c5b10becb52f3bfc1e6f93427ecbc8fe297c"),
        (CurveID::P256, "e5cd8e46dc8ed4b7c2764d2a5a4d767706f85d8690024ad6bda3401be9c8cbccc935f6cd1f61226ae15338ae1a34004d33ba0d246ac04c81b1baf23e3bf9eef5f79f2b4934af87f5520b69b94b0d982e85bb55b672a872637acd7466fcb60e0e8ff1", "542bc7648cc67a9b7fd8eb4262a85c35cde16d11bcff7ac4dc28e806cf7a8366"),
        (CurveID::P256, "ffffffffffffffffffffffffffffffffffffffffffffffffffffffffffffffffffffffffffffffffffffffffffffffffffffffffffffffffffffffffffffffffffffffffffffffffffffffffffffffffffffffffffffffffffffffffffffffffffff", "00180000000100000005fffffffcffffffedfffffff7fffffffd00000009ffff"),
        (CurveID::P256, "ffffffff00000001000000000000000000000000ffffffffffffffffffffffff", "0000000000000000000000000000000000000000000000000000000000000000"),
        (CurveID::P256, "ffffffff00000001000000000000000000000000fffffffffffffffffffffffe", "ffffffff00000001000000000000000000000000fffffffffffffffffffffffe"),
        (CurveID::P521, "84", "000000000000000000000000000000000000000000000000000000000000000000000000000000000000000000000000000000000000000000000000000000000084"),
        (CurveID::P521, "63b0e4b2ba29703474f064ac68f700f5b02b3dc666f45bdeaa2ccaedcd2b5157410e4dee4af2b34f430a073447de636c0e806c957ba684d6431fb5ead7424d09e1", "0063b0e4b2ba29703474f064ac68f700f5b02b3dc666f45bdeaa2ccaedcd2b5157410e4dee4af2b34f430a073447de636c0e806c957ba684d6431fb5ead7424d09e1"),
        (CurveID::P521, "5d024c5848f23d1fa6f7361d7f618d1532e70e20e2a6668de7f47e8467e546d53ec8e2a1257bdb256c9b3e4fbb498146ef7030cbf9537252dcceadd764b6a32fbb09", "01024c5848f23d1fa6f7361d7f618d1532e70e20e2a6668de7f47e8467e546d53ec8e2a1257bdb256c9b3e4fbb498146ef7030cbf9537252dcceadd764b6a32fbb37"),
        (CurveID::P521, "adeae109c4a997203975352b878b145c8a42d884cf4cfda72d8e1d5dd92589082d852a7122873ee805add58942167a385286195c679f9c6994e45b8ab1098012070961", "00e109c4a997203975352b878b145c8a42d884cf4cfda72d8e1d5dd92589082d852a7122873ee805add58942167a385286195c679f9c6994e45b8ab1098012076056"),
        (CurveID::P521, "f37de436ddfdc99d6e75af6547cfb11b42072482dc531c2bc3907c9617eb5e5089e40186baa8a57d119e6fb65d00abc32af38e667f022e872d49cc15c90b999b772b4fc7a6fd4c914a16db4708752b0f1544b835c0e719097dfa8701e9232f21f281", "01e40186baa8a57d119e6fb65d00abc32af38e667f022e872d49cc15c90b999b77a50eb9c26c4b7618ce161ebb1912e7a2e5bbc80255429793dc4f40342f24d11ac5"),
        (CurveID::P521, "ffffffffffffffffffffffffffffffffffffffffffffffffffffffffffffffffffffffffffffffffffffffffffffffffffffffffffffffffffffffffffffffffffffffffffffffffffffffffffffffffffffffffffffffffffffffffffffffffffff", "0000000000000000000000000000000000000000000000000000000000000000007fffffffffffffffffffffffffffffffffffffffffffffffffffffffffffffffff"),
        (CurveID::P521, "01ffffffffffffffffffffffffffffffffffffffffffffffffffffffffffffffffffffffffffffffffffffffffffffffffffffffffffffffffffffffffffffffffff", "000000000000000000000000000000000000000000000000000000000000000000000000000000000000000000000000000000000000000000000000000000000000"),
        (CurveID::P521, "01fffffffffffffffffffffffffffffffffffffffffffffffffffffffffffffffffffffffffffffffffffffffffffffffffffffffffffffffffffffffffffffffffe", "01fffffffffffffffffffffffffffffffffffffffffffffffffffffffffffffffffffffffffffffffffffffffffffffffffffffffffffffffffffffffffffffffffe"),
        (CurveID::BLS12381G1, "26", "000000000000000000000000000000000000000000000000000000000000000000000000000000000000000000000026"),
        (CurveID::BLS12381G1, "87786976ebfcc327f5931765274ba9829b4406f61ff889326ffa9492edeeee3c669f2bf20894ea27e689c66b6b262e", "0087786976ebfcc327f5931765274ba9829b4406f61ff889326ffa9492edeeee3c669f2bf20894ea27e689c66b6b262e"),
        (CurveID::BLS12381G1, "4886b8438f39ba76fef8c90c5101fbe6cf9a48d5b0c0a13da900a6adcb3d64069481be21c9c727b8db8c188f341a924c", "1484946f1c39ed4268c1799fca6aa23806abb1cbc9b67bbeda9f016bdddb77be5729be24671f27b9678e188f341b3cf6"),
        (CurveID::BLS12381G1, "7f88dfa161bfdb0ecc682919d2e64692f8194157f1d4af90988285cf7a9af7c93d5552266afe70e7aae6da47627c2e59af", "0da0ce21ddd790663395eb4efe4a3f0a946e1f2c0350a845a22d3c613d711e2af81e2cd3aba4e90215c147627dd0ad62"),
        (CurveID::BLS12381G1, "2ea37abc84670ad3c4d36bc08aad1fff8eb8406e2f8a7fc4cce4dd9f0b4110d9f2fa0025c8efe57f37724f4d37ea2b14004077139b4180df3932249962c6857200059aeb8ea17cf3787e0ed29d1c0b63ffd7298374d9bd74fc11add7b9ca65039522", "114d5bcaa7262b1a2386f95982b2929a18009a91c4242767ffcbfaab916a40f425a4429780bb1e1fb204415654ca3928"),
        (CurveID::BLS12381G1, "ffffffffffffffffffffffffffffffffffffffffffffffffffffffffffffffffffffffffffffffffffffffffffffffffffffffffffffffffffffffffffffffffffffffffffffffffffffffffffffffffffffffffffffffffffffffffffffffffffff", "0c8d4cc8a759fd5cd507320a75865d118c10ea725d74088b4f36a0093317d3b1d65aec45c53e243d626d1c34510370ec"),
        (CurveID::BLS12381G1, "1a0111ea397fe69a4b1ba7b6434bacd764774b84f38512bf6730d2a0f6b0f6241eabfffeb153ffffb9feffffffffaaab", "000000000000000000000000000000000000000000000000000000000000000000000000000000000000000000000000"),
        (CurveID::BLS12381G1, "1a0111ea397fe69a4b1ba7b6434bacd764774b84f38512bf6730d2a0f6b0f6241eabfffeb153ffffb9feffffffffaaaa", "1a0111ea397fe69a4b1ba7b6434bacd764774b84f38512bf6730d2a0f6b0f6241eabfffeb153ffffb9feffffffffaaaa"),
        (CurveID::CURVE448, "69", "0000000000000000000000000000000000000000000000000000000000000000000000000000000000000000000000000000000000000069"),
        (CurveID::CURVE448, "fd669f6376ee71879737fd5f72f8d51c4ac91b6d0c48d41a1e5ec9e6a0392854a8615eef109fc1bfa9e2563701288f29b3d73f6ac2b69e", "00fd669f6376ee71879737fd5f72f8d51c4ac91b6d0c48d41a1e5ec9e6a0392854a8615eef109fc1bfa9e2563701288f29b3d73f6ac2b69e"),
        (CurveID::CURVE448, "dd2c19f264bee462a5baf20fd27ecf14c011ed201f836320adb98bab1686a28d9801210c7736f3eec580dcfc43fe5d049b4d78a7a3ebb928", "dd2c19f264bee462a5baf20fd27ecf14c011ed201f836320adb98bab1686a28d9801210c7736f3eec580dcfc43fe5d049b4d78a7a3ebb928"),
        (CurveID::CURVE448, "65c8517ed02111f6a652da3524872b6a31d7ffe4587744d5eb783e96968f89be828565e07e5f7d784e9060a721ca807d7633ed123402f376e5", "c8517ed02111f6a652da3524872b6a31d7ffe4587744d5eb783e96fb8f89be828565e07e5f7d784e9060a721ca807d7633ed123402f3774a"),
        (CurveID::CURVE448, "bf1496773d19616326be5be5850336b36f13bcae48166882136805a7d1be5e9f276810fdf720d033ca4f2e53cb8ad1919dd51a9fb6d4d509ba64c8cf6803de50d83a2ecfbaeb5342071a48cb2dbd574ab29152572237c4fb659a4016f7a11bc62c52", "65073a9e8e3fe5eb8321ca3cdab30a4c545d099eb2151cd7b6ce8f4089f5762e057975d3bfccc5f957ffb30aba11ca1bb278158047df7ba4"),
        (CurveID::CURVE448, "ffffffffffffffffffffffffffffffffffffffffffffffffffffffffffffffffffffffffffffffffffffffffffffffffffffffffffffffffffffffffffffffffffffffffffffffffffffffffffffffffffffffffffffffffffffffffffffffffffff", "000000000000000000000000000200000000000000000000000000000000000000000000000000000000ffffffffffffffffffffffffffff"),
        (CurveID::CURVE448, "fffffffffffffffffffffffffffffffffffffffffffffffffffffffeffffffffffffffffffffffffffffffffffffffffffffffffffffffff", "0000000000000000000000000000000000000000000000000000000000000000000000000000000000000000000000000000000000000000"),
        (CurveID::CURVE448, "fffffffffffffffffffffffffffffffffffffffffffffffffffffffefffffffffffffffffffffffffffffffffffffffffffffffffffffffe", "fffffffffffffffffffffffffffffffffffffffffffffffffffffffefffffffffffffffffffffffffffffffffffffffffffffffffffffffe"),
    ];
    for (curve, x, want) in table {
        assert_eq!(reduce(&unhex(x), &curve.modulus()), unhex(want), "{:?} {}", curve, x);
    }
}

fn hasher(curve: CurveID, l: usize) -> FpHasher {
    let exp = get_expander(ExpID::XMD(HashID::SHA256), b"tag", 128);
    FpHasher::new(curve.modulus(), l, exp)
}

#[test]
fn elements_are_reduced_slices() {
    let exp = get_expander(ExpID::XMD(HashID::SHA256), b"tag", 128);
    for curve in CURVES {
        for count in [0usize, 1, 2, 3, 5] {
            let l = 48;
            let pseudo = exp.expand(b"message", count * l).unwrap();
            let u = hasher(curve, l).hash(b"message", count).unwrap();
            assert_eq!(u.len(), count);
            let p = curve.modulus();
            for i in 0..count {
                assert_eq!(u[i].bytes, reduce(&pseudo[i * l..(i + 1) * l], &p));
                assert_eq!(u[i].bytes.len(), p.len());
                assert!(u[i].bytes < p, "{:?}", curve);
            }
        }
    }
}

#[test]
fn narrow_slices_are_elements_already() {
    let exp = get_expander(ExpID::XMD(HashID::SHA256), b"tag", 128);
    let pseudo = exp.expand(b"message", 3 * 16).unwrap();
    let u = hasher(CurveID::P256, 16).hash(b"message", 3).unwrap();
    for i in 0..3 {
        let mut want = vec![0u8; 16];
        want.extend_from_slice(&pseudo[i * 16..(i + 1) * 16]);
        assert_eq!(u[i].bytes, want);
    }
    let zero = hasher(CurveID::P256, 0).hash(b"message", 4).unwrap();
    assert_eq!(zero.len(), 4);
    for elt in zero {
        assert_eq!(elt.bytes, vec![0u8; 32]);
    }
}

#[test]
fn hasher_fails_where_the_expander_fails() {
    let h = hasher(CurveID::P256, 48);
    assert_eq!(h.hash(b"", 170).unwrap().len(), 170);
    assert_eq!(h.hash(b"", 171), Err(Error::RequestedTooManyBytes));
    assert_eq!(h.hash(b"", usize::MAX), Err(Error::RequestedTooManyBytes));
    assert_eq!(h.hash(b"", usize::MAX / 48 + 1), Err(Error::RequestedTooManyBytes));
    let exp = get_expander(ExpID::XMD(HashID::SHA256), &[7u8; 255], 128);
    let h = FpHasher::new(CurveID::P256.modulus(), 48, exp);
    assert_eq!(h.hash(b"", 1), Err(Error::DstPrimeTooLong));
    assert_eq!(h.hash(b"", 171), Err(Error::RequestedTooManyBytes));
}
