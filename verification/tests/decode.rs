use txtool::decode::{decode_tx, describe_tx};
use txtool::error::TxError;
use txtool::make::{make_tx, parse_tx_args};
use txtool::tx::{Transaction, TxIn, TxOut};

const TXID: &str = "000102030405060708090a0b0c0d0e0f101112131415161718191a1b1c1d1e1f";
const P2PKH: &str = "76a914000102030405060708090a0b0c0d0e0f1011121388ac";

fn args(list: &[&str]) -> Vec<String> {
    list.iter().map(|s| s.to_string()).collect()
}

#[test]
fn decoding_gives_back_what_was_made() {
    let script = "ab".repeat(300);
    for list in [
        vec!["inputs", TXID, "1", "", "4294967295", "outputs", "5000000000", P2PKH],
        vec!["inputs", TXID, "0", "00", "1", TXID, "2", "0102", "3", "outputs", "10", "51", "20", "5253", "9"],
        vec!["inputs", TXID, "7", &script, "0", "outputs", "18446744073709551615", &script, "4294967295"],
        vec!["inputs", TXID, "0", "", "0", "outputs", "7"],
    ] {
        let a = args(&list);
        let made = parse_tx_args(&a).unwrap();
        let text = make_tx(&a).unwrap();
        assert_eq!(decode_tx(&text), Ok(made));
    }
}

#[test]
fn many_inputs_are_counted_in_three_bytes() {
    let mut list = vec!["inputs"];
    for _ in 0..253 {
        list.extend_from_slice(&[TXID, "1", "", "2"]);
    }
    list.extend_from_slice(&["outputs", "1", ""]);
    let a = args(&list);
    let text = make_tx(&a).unwrap();
    assert_eq!(text.len(), 2 * (4 + 3 + 253 * (36 + 1 + 4) + 1 + (8 + 1) + 4));
    assert_eq!(&text[8..14], "fdfd00");
    let t = decode_tx(&text).unwrap();
    assert_eq!(t.input.len(), 253);
    assert_eq!(Ok(t), parse_tx_args(&a));
}

#[test]
fn a_transaction_is_read_field_by_field() {
    let raw = "01000000011f1e1d1c1b1a191817161514131211100f0e0d0c0b0a090807060504030201000100000002abcd\
               070000000200f2052a01000000015100000000000000000063000000";
    let mut id = [0u8; 32];
    for j in 0..32 {
        id[j] = (31 - j) as u8;
    }
    assert_eq!(
        decode_tx(raw),
        Ok(Transaction {
            version: 1,
            lock_time: 99,
            input: vec![TxIn {
                txid: id,
                vout: 1,
                script_sig: vec![0xab, 0xcd],
                sequence: 7,
                witness: vec![],
            }],
            output: vec![
                TxOut { value: 5000000000, script_pubkey: vec![0x51] },
                TxOut { value: 0, script_pubkey: vec![] },
            ],
        })
    );
}

#[test]
fn witnesses_are_read_with_their_inputs() {
    let raw = [
        "02000000",
        "0001",
        "01",
        "1f1e1d1c1b1a191817161514131211100f0e0d0c0b0a09080706050403020100",
        "00000000",
        "00",
        "ffffffff",
        "01",
        "0a00000000000000",
        "0151",
        "02",
        "02aabb",
        "00",
        "00000000",
    ]
    .concat();
    let t = decode_tx(&raw).unwrap();
    assert_eq!(t.version, 2);
    assert_eq!(t.input.len(), 1);
    assert_eq!(t.input[0].witness, vec![vec![0xaa, 0xbb], vec![]]);
    assert_eq!(t.output, vec![TxOut { value: 10, script_pubkey: vec![0x51] }]);
}

#[test]
fn a_transaction_is_described_in_words() {
    let a = args(&["inputs", TXID, "1", "", "4294967295", "outputs", "5000000000", P2PKH]);
    let text = make_tx(&a).unwrap();
    assert_eq!(
        describe_tx(&text),
        Ok("Transaction { version: 1, lock_time: 0, input: [TxIn { previous_output: OutPoint { \
            txid: 1f1e1d1c1b1a191817161514131211100f0e0d0c0b0a09080706050403020100, vout: 1 }, \
            script_sig: Script(), sequence: 4294967295, witness: [] }], output: [TxOut { value: \
            5000000000, script_pubkey: Script(OP_DUP OP_HASH160 OP_PUSHBYTES_20 \
            000102030405060708090a0b0c0d0e0f10111213 OP_EQUALVERIFY OP_CHECKSIG) }] }"
            .to_string())
    );
}

#[test]
fn text_that_is_not_hexadecimal_is_refused() {
    assert_eq!(decode_tx("zz"), Err(TxError::BadArgument));
    assert_eq!(decode_tx("010"), Err(TxError::BadArgument));
    assert_eq!(describe_tx("0x01"), Err(TxError::BadArgument));
    assert_eq!(describe_tx("0100000"), Err(TxError::BadArgument));
}

#[test]
fn bytes_that_encode_no_transaction_are_refused() {
    assert_eq!(decode_tx(""), Err(TxError::BadTransaction));
    assert_eq!(decode_tx("01000000"), Err(TxError::BadTransaction));
    assert_eq!(describe_tx("01000000"), Err(TxError::BadTransaction));
    let a = args(&["inputs", TXID, "1", "", "4294967295", "outputs", "5000000000", P2PKH]);
    let text = make_tx(&a).unwrap();
    assert_eq!(decode_tx(&text[..text.len() - 2]), Err(TxError::BadTransaction));
    assert_eq!(decode_tx(&format!("{}00", text)), Err(TxError::BadTransaction));
    assert_eq!(describe_tx(&format!("{}00", text)), Err(TxError::BadTransaction));
    // A count written in more bytes than it needs.
    assert_eq!(&text[8..10], "01");
    let padded = format!("{}fd0100{}", &text[..8], &text[10..]);
    assert_eq!(decode_tx(&padded), Err(TxError::BadTransaction));
}

#[test]
fn a_transaction_without_inputs_does_not_read_back() {
    assert_eq!(
        decode_tx("01000000000100f2052a01000000000000000000"),
        Err(TxError::BadTransaction)
    );
    assert_eq!(
        decode_tx("01000000000000000000"),
        Ok(Transaction { version: 1, lock_time: 0, input: vec![], output: vec![] })
    );
}
