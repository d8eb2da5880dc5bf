use hbba::server::ser_local_peer_uuid::{deserialize, serialize};

const ID: u128 = 0xa1a2a3a4b1b2c1c2d1d2d3d4d5d6d7d8;
const WIRE: &str = "YTFhMmEzYTQtYjFiMi1jMWMyLWQxZDItZDNkNGQ1ZDZkN2Q4";

#[test]
fn identifier_travels_as_base64_of_its_hyphenated_form() {
    assert_eq!(serialize(ID), WIRE);
}

#[test]
fn nil_identifier_travels_as_base64_of_zeros() {
    assert_eq!(serialize(0), "MDAwMDAwMDAtMDAwMC0wMDAwLTAwMDAtMDAwMDAwMDAwMDAw");
}

#[test]
fn travelling_form_is_read_back() {
    assert_eq!(deserialize(WIRE), Some(ID));
    assert_eq!(deserialize(&serialize(u128::MAX)), Some(u128::MAX));
    assert_eq!(deserialize(&serialize(1)), Some(1));
}

#[test]
fn identifier_without_hyphens_is_read_too() {
    // base64 of "a1a2a3a4b1b2c1c2d1d2d3d4d5d6d7d8"
    assert_eq!(deserialize("YTFhMmEzYTRiMWIyYzFjMmQxZDJkM2Q0ZDVkNmQ3ZDg="), Some(ID));
}

#[test]
fn text_that_is_no_base64_is_refused() {
    assert_eq!(deserialize("not base64 at all!"), None);
    assert_eq!(deserialize("YTFh*"), None);
}

#[test]
fn bytes_that_are_no_utf8_are_refused() {
    // base64 of the bytes ff fe fd
    assert_eq!(deserialize("//79"), None);
}

#[test]
fn characters_that_are_no_identifier_are_refused() {
    // base64 of "hello world"
    assert_eq!(deserialize("aGVsbG8gd29ybGQ="), None);
    assert_eq!(deserialize(""), None);
}

#[test]
fn plain_identifier_text_is_refused() {
    assert_eq!(deserialize("a1a2a3a4-b1b2-c1c2-d1d2-d3d4d5d6d7d8"), None);
}

#[test]
fn travelling_form_holds_the_hyphenated_small_letter_form() {
    // base64 of "01234567-89ab-cdef-0fed-cba987654321"
    assert_eq!(
        serialize(0x0123456789abcdef0fedcba987654321),
        "MDEyMzQ1NjctODlhYi1jZGVmLTBmZWQtY2JhOTg3NjU0MzIx"
    );
    // base64 of "ffffffff-ffff-ffff-ffff-ffffffffffff"
    assert_eq!(serialize(u128::MAX), "ZmZmZmZmZmYtZmZmZi1mZmZmLWZmZmYtZmZmZmZmZmZmZmZm");
    // base64 of "00000000-0000-0000-0000-000000000001"
    assert_eq!(serialize(1), "MDAwMDAwMDAtMDAwMC0wMDAwLTAwMDAtMDAwMDAwMDAwMDAx");
}

#[test]
fn every_identifier_is_read_back() {
    let mut v: u128 = 0x9e3779b97f4a7c15f39cc0605cedc835;
    for _ in 0..200 {
        assert_eq!(deserialize(&serialize(v)), Some(v));
        v = v.wrapping_mul(0x2545f4914f6cdd1d_u128).wrapping_add(0x1234567) ^ (v >> 17);
    }
}
