use txtool::eddsa::{eddsa_privkey, eddsa_pubkey, eddsa_pubkey_check, secret_text};
use txtool::error::TxError;
use txtool::hex::from_hex;

#[test]
fn public_keys_of_known_secret_keys() {
    assert_eq!(
        eddsa_pubkey("9d61b19deffd5a60ba844af492ec2cc44449c5697b326919703bac031cae7f60"),
        Ok("d75a980182b10ab7d54bfed3c964073a0ee172f3daa62325af021a68f707511a".to_string())
    );
    assert_eq!(
        eddsa_pubkey("4ccd089b28ff96da9db6c346ec114e0f5b8a319f35aba624da8cf6ed4fb8a6fb"),
        Ok("3d4017c3e843895a92b70aa74d1b7ebc9c982ccf2ec4968cc0cd55f12af4660c".to_string())
    );
    assert_eq!(
        eddsa_pubkey("C5AA8DF43F9F837BEDB7442F31DCB7B166D38535076F094B85CE3A2E0B4458F7"),
        Ok("fc51cd8e6218a1a38da47ed00230f0580816ed13ba3303ac5deb911548908025".to_string())
    );
}

#[test]
fn a_public_key_depends_on_the_secret_key_alone() {
    let secret = "0000000000000000000000000000000000000000000000000000000000000000";
    let first = eddsa_pubkey(secret).unwrap();
    assert_eq!(first.len(), 64);
    assert_eq!(eddsa_pubkey(secret), Ok(first));
}

#[test]
fn a_fresh_secret_key_has_a_public_key_on_the_curve() {
    let secret = eddsa_privkey().unwrap();
    assert_eq!(secret.len(), 64);
    assert_eq!(from_hex(&secret).unwrap().len(), 32);
    let public = eddsa_pubkey(&secret).unwrap();
    assert_eq!(public.len(), 64);
    assert_eq!(eddsa_pubkey(&secret), Ok(public.clone()));
    assert_eq!(eddsa_pubkey_check(&public), Ok(()));
}

#[test]
fn derived_public_keys_pass_the_check() {
    for n in 0u8..40 {
        let secret = secret_text(&[n; 32]);
        let public = eddsa_pubkey(&secret).unwrap();
        assert_eq!(eddsa_pubkey_check(&public), Ok(()));
    }
}

#[test]
fn bytes_that_are_no_point_fail_the_check() {
    for first in ["02", "07", "08", "0b"] {
        let text = format!("{}{}", first, "00".repeat(31));
        assert_eq!(eddsa_pubkey_check(&text), Err(TxError::NotOnCurve));
    }
}

#[test]
fn points_of_small_order_pass_the_check() {
    let zero = "00".repeat(32);
    assert_eq!(eddsa_pubkey_check(&zero), Ok(()));
    let one = format!("01{}", "00".repeat(31));
    assert_eq!(eddsa_pubkey_check(&one), Ok(()));
}

#[test]
fn a_key_has_32_bytes() {
    assert_eq!(eddsa_pubkey(""), Err(TxError::BadKeyLength));
    assert_eq!(eddsa_pubkey(&"00".repeat(31)), Err(TxError::BadKeyLength));
    assert_eq!(eddsa_pubkey(&"00".repeat(33)), Err(TxError::BadKeyLength));
    assert_eq!(eddsa_pubkey_check(""), Err(TxError::BadKeyLength));
    assert_eq!(eddsa_pubkey_check(&"00".repeat(31)), Err(TxError::BadKeyLength));
    assert_eq!(eddsa_pubkey_check(&"00".repeat(64)), Err(TxError::BadKeyLength));
}

#[test]
fn a_key_is_hexadecimal() {
    assert_eq!(eddsa_pubkey("xyz"), Err(TxError::BadArgument));
    assert_eq!(eddsa_pubkey(&"0".repeat(63)), Err(TxError::BadArgument));
    assert_eq!(eddsa_pubkey_check(&"g0".repeat(32)), Err(TxError::BadArgument));
    assert_eq!(eddsa_pubkey_check(&"0".repeat(65)), Err(TxError::BadArgument));
}

#[test]
fn a_secret_key_is_written_in_64_characters() {
    let mut k = [0u8; 32];
    k[0] = 0xab;
    k[31] = 0x01;
    assert_eq!(secret_text(&k), format!("ab{}01", "00".repeat(30)));
}
