use openai::codec::{decode, encode};

#[test]
fn bytes_are_written_as_lower_case_hex() {
    assert_eq!(encode(&[]), "");
    assert_eq!(encode(&[0]), "00");
    assert_eq!(encode(&[0x0f, 0xf0, 0xff, 0x10, 0xab]), "0ff0ff10ab");
    assert_eq!(encode(b"{\"a\":1}"), "7b2261223a317d");
}

#[test]
fn hex_is_read_back() {
    assert_eq!(decode(""), Some(vec![]));
    assert_eq!(decode("00"), Some(vec![0]));
    assert_eq!(decode("0ff0ff10ab"), Some(vec![0x0f, 0xf0, 0xff, 0x10, 0xab]));
    let all: Vec<u8> = (0..=255).collect();
    assert_eq!(decode(&encode(&all)), Some(all));
}

#[test]
fn damaged_hex_is_refused() {
    for text in ["0", "000", "0g", "g0", "0F", "AB", " 00", "00 ", "0x00", "é0", "00é", "ééé"] {
        assert_eq!(decode(text), None);
    }
}
