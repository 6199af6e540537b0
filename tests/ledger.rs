use safex::ledger::{hex_lower, log_instruction_data, report_digest, report_hash_hex};

#[test]
fn digest_of_known_texts() {
    assert_eq!(report_hash_hex("abc"), "ba7816bf8f01cfea414140de5dae2223b00361a396177a9cb410ff61f20015ad");
    assert_eq!(report_hash_hex(""), "e3b0c44298fc1c149afbf4c8996fb92427ae41e4649b934ca495991b7852b855");
    assert_eq!(report_digest("abc").len(), 32);
    assert_eq!(report_digest("abc")[0], 0xba);
}

#[test]
fn hex_is_two_lower_digits_per_byte() {
    assert_eq!(hex_lower(&[0x00, 0x0f, 0xa0, 0xff]), "000fa0ff");
    assert_eq!(hex_lower(&[]), "");
}

#[test]
fn instruction_data_is_tag_then_digest() {
    let d = report_digest("report");
    let data = log_instruction_data(&d);
    assert_eq!(data.len(), 33);
    assert_eq!(data[0], 0);
    assert_eq!(&data[1..], &d[..]);
}
