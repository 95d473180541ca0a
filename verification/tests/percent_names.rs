use folder_gateway::percent::{decode_name, encode_name};

#[test]
fn unreserved_bytes_are_kept() {
    assert_eq!(encode_name("pureascii"), "pureascii");
    assert_eq!(encode_name("AZaz09-._~"), "AZaz09-._~");
    assert_eq!(encode_name(""), "");
}

#[test]
fn other_bytes_become_upper_case_escapes() {
    assert_eq!(encode_name("this that"), "this%20that");
    assert_eq!(encode_name("&a%b!c.d?e"), "%26a%25b%21c.d%3Fe");
    assert_eq!(encode_name("a/b"), "a%2Fb");
    assert_eq!(encode_name("a+b"), "a%2Bb");
    assert_eq!(encode_name("\0"), "%00");
    assert_eq!(encode_name("\u{7f}"), "%7F");
}

#[test]
fn text_outside_ascii_is_encoded_by_its_utf8_bytes() {
    assert_eq!(encode_name("é"), "%C3%A9");
    assert_eq!(encode_name("≡"), "%E2%89%A1");
    assert_eq!(encode_name("👾 Exterminate!"), "%F0%9F%91%BE%20Exterminate%21");
}

#[test]
fn escapes_are_decode_name() {
    assert_eq!(decode_name("this%20that"), Some("this that".to_string()));
    assert_eq!(decode_name("%F0%9F%91%BE%20Exterminate%21"), Some("👾 Exterminate!".to_string()));
    assert_eq!(decode_name("pureascii"), Some("pureascii".to_string()));
    assert_eq!(decode_name(""), Some(String::new()));
}

#[test]
fn hexadecimal_digits_of_either_case_are_read() {
    assert_eq!(decode_name("%2f%2F"), Some("//".to_string()));
    assert_eq!(decode_name("%c3%A9"), Some("é".to_string()));
    assert_eq!(decode_name("%aB%Cd"), None);
    assert_eq!(decode_name("%4a%4A"), Some("JJ".to_string()));
}

#[test]
fn plus_is_not_a_space() {
    assert_eq!(decode_name("a+b"), Some("a+b".to_string()));
}

#[test]
fn percent_without_two_digits_stands_for_itself() {
    assert_eq!(decode_name("this%20that%"), Some("this that%".to_string()));
    assert_eq!(decode_name("this%20that%2"), Some("this that%2".to_string()));
    assert_eq!(decode_name("this%20that%%"), Some("this that%%".to_string()));
    assert_eq!(decode_name("this%20that%2%"), Some("this that%2%".to_string()));
    assert_eq!(decode_name("this%2that"), Some("this%2that".to_string()));
    assert_eq!(decode_name("this%%2that"), Some("this%%2that".to_string()));
    assert_eq!(decode_name("this%2x%26that"), Some("this%2x&that".to_string()));
    assert_eq!(decode_name("this%2%26that"), Some("this%2&that".to_string()));
    assert_eq!(decode_name("%%41"), Some("%A".to_string()));
    assert_eq!(decode_name("%zz"), Some("%zz".to_string()));
    assert_eq!(decode_name("%g0"), Some("%g0".to_string()));
}

#[test]
fn bytes_that_are_not_utf8_are_refused() {
    assert_eq!(decode_name("%FF"), None);
    assert_eq!(decode_name("%F0%0F%91%BE%20Hello%21"), None);
    assert_eq!(decode_name("%C3"), None);
    assert_eq!(decode_name("abc%80"), None);
    assert_eq!(decode_name("%ED%A0%80"), None);
    assert_eq!(decode_name("%C0%80"), None);
}

#[test]
fn a_link_leads_back_to_its_name() {
    let names = [
        "photo.png",
        "O'Brien.txt",
        "100% sure.txt",
        "a+b c&d=e?f#g",
        "%41",
        "%",
        "%%",
        "%2",
        "日本語.pdf",
        "👾",
        "tab\there",
        "line\nbreak",
        "back\\slash \"quoted\"",
        "",
    ];
    for name in names {
        let link = encode_name(name);
        assert!(link.is_ascii());
        assert_eq!(decode_name(&link), Some(name.to_string()), "name {:?}", name);
    }
}

#[test]
fn every_single_byte_name_makes_the_round_trip() {
    for code in 0u32..=0x7f {
        let name = char::from_u32(code).unwrap().to_string();
        assert_eq!(decode_name(&encode_name(&name)), Some(name));
    }
}

#[test]
fn a_decoded_path_segment_is_reached_again_by_its_link() {
    let segments = ["%41%20b", "a%2fb", "plain", "%e2%89%a1", "x%2", "50%25"];
    for segment in segments {
        let name = decode_name(segment).unwrap();
        let link = encode_name(&name);
        assert_eq!(decode_name(&link), Some(name));
    }
    assert_eq!(decode_name("%41%20b"), Some("A b".to_string()));
    assert_eq!(encode_name("A b"), "A%20b");
}
