use llvm_bind::text::CText;
use llvm_bind::text::NulError;

#[test]
fn text_without_nul_is_accepted_unchanged() {
    let text = CText::new(b"foo.bc".to_vec()).unwrap();
    assert_eq!(text.as_bytes(), b"foo.bc");
    assert_eq!(text.len(), 6);
}

#[test]
fn text_ends_in_exactly_one_nul() {
    let text = CText::new(b"x86-64".to_vec()).unwrap();
    assert_eq!(text.as_bytes_with_nul(), b"x86-64\0");
}

#[test]
fn empty_text_is_accepted() {
    let text = CText::new(Vec::new()).unwrap();
    assert_eq!(text.len(), 0);
    assert_eq!(text.as_bytes(), b"");
    assert_eq!(text.as_bytes_with_nul(), b"\0");
}

#[test]
fn embedded_nul_is_refused_with_its_place() {
    assert_eq!(CText::new(b"fo\0o".to_vec()), Err(NulError { position: 2 }));
}

#[test]
fn leading_nul_is_refused_at_zero() {
    assert_eq!(CText::new(b"\0abc".to_vec()), Err(NulError { position: 0 }));
}

#[test]
fn trailing_nul_is_refused_too() {
    assert_eq!(CText::new(b"abc\0".to_vec()), Err(NulError { position: 3 }));
}

#[test]
fn first_of_several_nuls_is_reported() {
    assert_eq!(CText::new(b"a\0b\0c\0".to_vec()), Err(NulError { position: 1 }));
}

#[test]
fn non_ascii_bytes_are_kept() {
    let bytes = vec![0xffu8, 0x01, 0x80];
    let text = CText::new(bytes.clone()).unwrap();
    assert_eq!(text.as_bytes(), &bytes[..]);
    assert_eq!(text.len(), 3);
}
