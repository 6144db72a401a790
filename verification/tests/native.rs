use llvm_bind::native::is_set;
use llvm_bind::native::required_name;
use llvm_bind::native::take_message;
use llvm_bind::native::Handle;
use llvm_bind::native::NativeCall;
use llvm_bind::text::CText;

#[test]
fn null_handle_is_the_one_at_address_zero() {
    assert!(Handle { addr: 0 }.is_null());
    assert!(!Handle { addr: 1 }.is_null());
    assert!(!Handle { addr: usize::MAX }.is_null());
}

#[test]
fn flag_is_set_at_one_only() {
    assert!(is_set(1));
    assert!(!is_set(0));
    assert!(!is_set(2));
    assert!(!is_set(-1));
    assert!(!is_set(i32::MAX));
}

#[test]
fn required_name_is_the_name_given() {
    let name = required_name(Some(CText::new(b"main".to_vec()).unwrap()));
    assert_eq!(name.as_bytes(), b"main");
}

#[test]
fn message_is_released_once_copied() {
    let copy = CText::new(b"x86_64-unknown-linux-gnu".to_vec()).unwrap();
    let (text, call) = take_message(Handle { addr: 0x7000 }, copy);
    assert_eq!(text.as_bytes(), b"x86_64-unknown-linux-gnu");
    assert_eq!(call, NativeCall::DisposeMessage { message: Handle { addr: 0x7000 } });
}
