use txtool::error::TxError;
use txtool::make::{make_tx, parse_input, parse_output, parse_tx_args};
use txtool::tx::{Transaction, TxIn, TxOut};

const TXID: &str = "000102030405060708090a0b0c0d0e0f101112131415161718191a1b1c1d1e1f";
const P2PKH: &str = "76a914000102030405060708090a0b0c0d0e0f1011121388ac";

fn args(list: &[&str]) -> Vec<String> {
    list.iter().map(|s| s.to_string()).collect()
}

fn reversed_id() -> [u8; 32] {
    let mut id = [0u8; 32];
    for j in 0..32 {
        id[j] = (31 - j) as u8;
    }
    id
}

#[test]
fn one_input_and_one_output() {
    let a = args(&["inputs", TXID, "1", "", "4294967295", "outputs", "5000000000", P2PKH]);
    assert_eq!(
        make_tx(&a),
        Ok("01000000011f1e1d1c1b1a191817161514131211100f0e0d0c0b0a09080706050403020100\
            0100000000ffffffff0100f2052a010000001976a914000102030405060708090a0b0c0d0e\
            0f1011121388ac00000000"
            .to_string())
    );
}

#[test]
fn the_arguments_are_read_into_a_transaction() {
    let a = args(&["inputs", TXID, "1", "abcd", "7", "outputs", "5000000000", P2PKH, "12", "", "99"]);
    let expected = Transaction {
        version: 1,
        lock_time: 99,
        input: vec![TxIn {
            txid: reversed_id(),
            vout: 1,
            script_sig: vec![0xab, 0xcd],
            sequence: 7,
            witness: vec![],
        }],
        output: vec![
            TxOut {
                value: 5000000000,
                script_pubkey: vec![
                    0x76, 0xa9, 0x14, 0, 1, 2, 3, 4, 5, 6, 7, 8, 9, 10, 11, 12, 13, 14, 15, 16,
                    17, 18, 19, 0x88, 0xac,
                ],
            },
            TxOut { value: 12, script_pubkey: vec![] },
        ],
    };
    assert_eq!(parse_tx_args(&a), Ok(expected));
}

#[test]
fn a_lock_time_may_follow_the_outputs() {
    let a = args(&["inputs", TXID, "0", "", "0", "outputs", "1", "", "500000"]);
    let expected = [
        "01000000",
        "01",
        "1f1e1d1c1b1a191817161514131211100f0e0d0c0b0a09080706050403020100",
        "00000000",
        "00",
        "00000000",
        "01",
        "0100000000000000",
        "00",
        "20a10700",
    ]
    .concat();
    assert_eq!(make_tx(&a), Ok(expected));
}

#[test]
fn a_single_argument_after_the_marker_is_the_lock_time() {
    let a = args(&["inputs", TXID, "0", "", "0", "outputs", "7"]);
    let t = parse_tx_args(&a).unwrap();
    assert_eq!(t.lock_time, 7);
    assert_eq!(t.output.len(), 0);
    assert_eq!(t.input.len(), 1);
}

#[test]
fn two_inputs_and_two_outputs() {
    let a = args(&[
        "inputs", TXID, "0", "00", "1", TXID, "2", "", "3", "outputs", "10", "51", "20", "52",
    ]);
    let t = parse_tx_args(&a).unwrap();
    assert_eq!(t.input.len(), 2);
    assert_eq!(t.input[1].vout, 2);
    assert_eq!(t.input[1].sequence, 3);
    assert_eq!(t.input[0].script_sig, vec![0]);
    assert_eq!(t.output.len(), 2);
    assert_eq!(t.output[1], TxOut { value: 20, script_pubkey: vec![0x52] });
    assert_eq!(t.lock_time, 0);
    assert_eq!(t.version, 1);
}

#[test]
fn the_length_is_the_sum_of_the_parts() {
    let a = args(&[
        "inputs", TXID, "0", "00", "1", TXID, "2", "0102030405", "3", "outputs", "10", "51", "20",
        "5253", "9",
    ]);
    let text = make_tx(&a).unwrap();
    let inputs = (36 + 1 + 1 + 4) + (36 + 1 + 5 + 4);
    let outputs = (8 + 1 + 1) + (8 + 1 + 2);
    assert_eq!(text.len(), 2 * (4 + 1 + inputs + 1 + outputs + 4));
}

#[test]
fn a_long_script_takes_a_longer_length_prefix() {
    let script = "51".repeat(253);
    let a = args(&["inputs", TXID, "0", &script, "0", "outputs", "1", &script]);
    let text = make_tx(&a).unwrap();
    assert_eq!(text.len(), 2 * (4 + 1 + (36 + 3 + 253 + 4) + 1 + (8 + 3 + 253) + 4));
    let short = "51".repeat(252);
    let b = args(&["inputs", TXID, "0", &short, "0", "outputs", "1", &short]);
    assert_eq!(make_tx(&b).unwrap().len(), 2 * (4 + 1 + (36 + 1 + 252 + 4) + 1 + (8 + 1 + 252) + 4));
}

#[test]
fn inputs_that_do_not_come_in_fours_are_refused() {
    let a = args(&["inputs", TXID, "1", "", "outputs", "5000000000", P2PKH]);
    assert_eq!(make_tx(&a), Err(TxError::InputGroups(3)));
    let b = args(&["inputs", TXID, "1", "", "0", TXID, "outputs", "5000000000", P2PKH]);
    assert_eq!(make_tx(&b), Err(TxError::InputGroups(5)));
    let c = args(&["inputs", "zz", "outputs", "1", ""]);
    assert_eq!(make_tx(&c), Err(TxError::InputGroups(1)));
}

#[test]
fn a_list_of_the_wrong_shape_is_refused() {
    assert_eq!(make_tx(&args(&[])), Err(TxError::Usage));
    assert_eq!(make_tx(&args(&["inputs"])), Err(TxError::Usage));
    assert_eq!(make_tx(&args(&["outputs", TXID, "1", "", "0", "outputs", "1", ""])), Err(TxError::Usage));
    assert_eq!(make_tx(&args(&["inputs", TXID, "1", "", "0"])), Err(TxError::Usage));
    assert_eq!(make_tx(&args(&["inputs", "outputs", "1", ""])), Err(TxError::Usage));
    assert_eq!(make_tx(&args(&["inputs", TXID, "1", "", "0", "outputs"])), Err(TxError::Usage));
    assert_eq!(make_tx(&args(&["Inputs", TXID, "1", "", "0", "outputs", "1", ""])), Err(TxError::Usage));
}

#[test]
fn the_first_marker_ends_the_inputs() {
    let a = args(&["inputs", TXID, "1", "", "0", "outputs", "1", "", "outputs", "2"]);
    assert_eq!(make_tx(&a), Err(TxError::BadArgument));
    let b = args(&["inputs", TXID, "1", "outputs", "0", "outputs", "1", ""]);
    assert_eq!(make_tx(&b), Err(TxError::InputGroups(2)));
}

#[test]
fn malformed_arguments_are_refused() {
    let good = ["inputs", TXID, "1", "", "0", "outputs", "1", "", "5"];
    assert!(make_tx(&args(&good)).is_ok());
    for (at, bad) in [
        (1, "zz"),
        (1, "00"),
        (1, "000102030405060708090a0b0c0d0e0f101112131415161718191a1b1c1d1e"),
        (1, "000102030405060708090a0b0c0d0e0f101112131415161718191a1b1c1d1e1"),
        (2, "4294967296"),
        (2, "-1"),
        (2, ""),
        (3, "0"),
        (3, "xy"),
        (4, "4294967296"),
        (4, "ff"),
        (6, "18446744073709551616"),
        (6, "1.5"),
        (7, "abc"),
        (8, "4294967296"),
        (8, "x"),
    ] {
        let mut list = good;
        list[at] = bad;
        assert_eq!(make_tx(&args(&list)), Err(TxError::BadArgument), "{} {:?}", at, bad);
    }
}

#[test]
fn a_long_transaction_id_is_cut_to_its_first_32_bytes() {
    let long = format!("{}{}", TXID, "ffee");
    let t = parse_tx_args(&args(&["inputs", &long, "0", "", "0", "outputs", "1", ""])).unwrap();
    assert_eq!(t.input[0].txid, reversed_id());
}

#[test]
fn an_input_is_read_from_four_arguments() {
    assert_eq!(
        parse_input(TXID, "+3", "AB", "010"),
        Some(TxIn {
            txid: reversed_id(),
            vout: 3,
            script_sig: vec![0xab],
            sequence: 10,
            witness: vec![],
        })
    );
    assert_eq!(parse_input("", "3", "ab", "10"), None);
    assert_eq!(parse_input(TXID, "", "ab", "10"), None);
    assert_eq!(parse_input(TXID, "3", "a", "10"), None);
    assert_eq!(parse_input(TXID, "3", "ab", "-10"), None);
}

#[test]
fn an_output_is_read_from_two_arguments() {
    assert_eq!(
        parse_output("18446744073709551615", "6a"),
        Some(TxOut { value: u64::MAX, script_pubkey: vec![0x6a] })
    );
    assert_eq!(parse_output("18446744073709551616", "6a"), None);
    assert_eq!(parse_output("1", "6"), None);
}
