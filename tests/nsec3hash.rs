use dnst::commands::nsec3hash::{DomainName, Nsec3Hash};
use dnst::hash::{canonical, hash_text, nsec3_hash, Nsec3HashAlg};
use ring::digest;

fn sha1(data: &[u8]) -> Vec<u8> {
    digest::digest(&digest::SHA1_FOR_LEGACY_USE_ONLY, data).as_ref().to_vec()
}

fn example_test_wire() -> Vec<u8> {
    let mut w = vec![7u8];
    w.extend_from_slice(b"example");
    w.push(4);
    w.extend_from_slice(b"test");
    w.push(0);
    w
}

fn hash_line(name: &str, iterations: u16, salt: Vec<u8>) -> String {
    let name = Nsec3Hash::parse_name(name).unwrap();
    Nsec3Hash::new(Nsec3HashAlg::sha1(), iterations, salt, name).execute().unwrap()
}

#[test]
fn native_defaults_hash_example_test() {
    assert_eq!(hash_line("example.test", 1, vec![]), "o09614ibh1cq1rcc86289olr22ea0fso.\n");
}

#[test]
fn rfc5155_example_vector() {
    let out = hash_line("example", 12, vec![0xaa, 0xbb, 0xcc, 0xdd]);
    assert_eq!(out, "0p9mhaveqvm6t7vbl5lop2u3t2rp3tom.\n");
}

#[test]
fn no_iterations_is_one_digest_pass() {
    let wire = example_test_wire();
    let salt = [0x01u8, 0x02];
    let mut data = wire.clone();
    data.extend_from_slice(&salt);
    let h = nsec3_hash(&wire, Nsec3HashAlg::sha1(), 0, &salt);
    assert_eq!(h, sha1(&data));
    assert_eq!(h.len(), 20);
}

#[test]
fn iterations_apply_the_extra_pass_each_time() {
    let wire = example_test_wire();
    let salt = [0xabu8];
    let mut data = wire.clone();
    data.extend_from_slice(&salt);
    let mut expected = sha1(&data);
    for _ in 0..3 {
        let mut next = expected.clone();
        next.extend_from_slice(&salt);
        expected = sha1(&next);
    }
    assert_eq!(nsec3_hash(&wire, Nsec3HashAlg::sha1(), 3, &salt), expected);
}

#[test]
fn hash_is_lowered_before_digest() {
    let upper = vec![1u8, b'A', 0];
    let lower = vec![1u8, b'a', 0];
    assert_eq!(canonical(&upper), lower);
    assert_eq!(
        nsec3_hash(&upper, Nsec3HashAlg::sha1(), 2, &[]),
        nsec3_hash(&lower, Nsec3HashAlg::sha1(), 2, &[])
    );
}

#[test]
fn hash_text_is_lower_base32hex_with_period() {
    let text = hash_text(&[0xffu8; 20]);
    assert_eq!(text, "vvvvvvvvvvvvvvvvvvvvvvvvvvvvvvvv.");
    let text = hash_text(&sha1(b"anything"));
    assert_eq!(text.len(), 33);
    assert!(text.ends_with('.'));
    assert!(text[..32].chars().all(|c| c.is_ascii_digit() || ('a'..='v').contains(&c)));
    assert_eq!(hash_text(&[0u8, 0, 0, 0, 0x01]), "00000001.");
}

#[test]
fn algorithm_number_and_mnemonic_agree() {
    let by_number = Nsec3Hash::parse_nsec_alg("1").unwrap();
    let by_mnemonic = Nsec3Hash::parse_nsec_alg("SHA-1").unwrap();
    assert_eq!(by_number, by_mnemonic);
    assert_eq!(by_number.code, 1);
    assert_eq!(Nsec3Hash::parse_nsec_alg("+1").unwrap().code, 1);
}

#[test]
fn algorithm_errors_are_distinct() {
    assert_eq!(Nsec3Hash::parse_nsec_alg("2"), Err("unknown algorithm number"));
    assert_eq!(Nsec3Hash::parse_nsec_alg("0"), Err("unknown algorithm number"));
    assert_eq!(Nsec3Hash::parse_nsec_alg("256"), Err("unknown algorithm number"));
    assert_eq!(Nsec3Hash::parse_nsec_alg("+99999999999999999999"), Err("unknown algorithm number"));
    assert_eq!(Nsec3Hash::parse_nsec_alg("+"), Err("unknown algorithm mnemonic"));
    assert_eq!(Nsec3Hash::parse_nsec_alg("1x"), Err("unknown algorithm mnemonic"));
    assert_eq!(Nsec3Hash::parse_nsec_alg("001").unwrap().code, 1);
    assert_eq!(Nsec3Hash::parse_nsec_alg("MD5"), Err("unknown algorithm mnemonic"));
    assert_eq!(Nsec3Hash::parse_nsec_alg("sha-1"), Err("unknown algorithm mnemonic"));
    assert_eq!(Nsec3Hash::parse_nsec_alg(""), Err("unknown algorithm mnemonic"));
}

#[test]
fn names_are_lowered_and_validated() {
    let a = Nsec3Hash::parse_name("EXAMPLE.Test").unwrap();
    let b = Nsec3Hash::parse_name("example.test.").unwrap();
    assert_eq!(a.wire, example_test_wire());
    assert_eq!(b.wire, example_test_wire());
    let long_label = "a".repeat(64);
    assert!(Nsec3Hash::parse_name(&long_label).is_err());
    assert!(Nsec3Hash::parse_name("a..b").is_err());
}

#[test]
fn salts_decode_from_hex() {
    assert_eq!(Nsec3Hash::parse_salt("aaBB01").unwrap(), vec![0xaa, 0xbb, 0x01]);
    assert_eq!(Nsec3Hash::parse_salt("-").unwrap(), Vec::<u8>::new());
    assert_eq!(Nsec3Hash::parse_salt("").unwrap(), Vec::<u8>::new());
    assert!(Nsec3Hash::parse_salt("abc").is_err());
    assert!(Nsec3Hash::parse_salt("zz").is_err());
}

#[test]
fn supported_algorithm_is_sha1() {
    let name = DomainName { wire: vec![0] };
    let h = Nsec3Hash::new(Nsec3HashAlg::sha1(), 1, vec![], name);
    assert!(h.is_supported());
}
