use ale::{CText, Violation};

#[test]
fn text_gets_one_terminator() {
    let text = CText::new(b"random_seed").unwrap();
    assert_eq!(text.as_bytes_with_nul(), b"random_seed\0");
    assert_eq!(text.to_bytes(), b"random_seed".to_vec());
}

#[test]
fn empty_text_is_only_the_terminator() {
    let text = CText::new(b"").unwrap();
    assert_eq!(text.as_bytes_with_nul(), b"\0");
    assert_eq!(text.to_bytes(), Vec::<u8>::new());
}

#[test]
fn zero_byte_is_refused_with_its_place() {
    assert_eq!(CText::new(b"ab\0cd"), Err(Violation::InteriorNul { position: 2 }));
    assert_eq!(CText::new(b"\0"), Err(Violation::InteriorNul { position: 0 }));
    assert_eq!(CText::new(b"abc\0"), Err(Violation::InteriorNul { position: 3 }));
}

#[test]
fn first_of_several_zero_bytes_is_named() {
    assert_eq!(CText::new(b"a\0b\0c\0"), Err(Violation::InteriorNul { position: 1 }));
}

#[test]
fn terminate_agrees_with_new() {
    assert_eq!(CText::terminate(b"/tmp/ale-rs.1/pong.bin"), CText::new(b"/tmp/ale-rs.1/pong.bin").unwrap());
}

#[test]
fn bytes_above_ascii_pass_through() {
    let text = CText::new("caf\u{e9}".as_bytes()).unwrap();
    assert_eq!(text.as_bytes_with_nul(), &[b'c', b'a', b'f', 0xC3, 0xA9, 0]);
}

#[test]
fn clone_is_equal_text() {
    let text = CText::new(b"frame_skip").unwrap();
    let copy = text.clone();
    assert_eq!(copy, text);
    assert_eq!(copy.as_bytes_with_nul(), b"frame_skip\0");
}
