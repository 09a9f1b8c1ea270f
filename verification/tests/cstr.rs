use narcissus::cstr::{cstr_from_bytes_until_nul, validate_cstr_contents};

#[test]
fn cstr_from_buffer_doc_example() {
    let mut buffer = [0u8; 16];
    for b in buffer.iter_mut().take(8) {
        *b = b'A';
    }
    let c_str = cstr_from_bytes_until_nul(&buffer[..]).unwrap();
    assert_eq!(c_str, b"AAAAAAAA\0");
}

#[test]
fn cstr_ends_at_first_nul() {
    assert_eq!(cstr_from_bytes_until_nul(b"ab\0cd\0").unwrap(), b"ab\0");
    assert_eq!(cstr_from_bytes_until_nul(b"\0abc").unwrap(), b"\0");
}

#[test]
fn cstr_without_nul_is_an_error() {
    let err = cstr_from_bytes_until_nul(b"hello").unwrap_err();
    assert_eq!(err.message(), "data provided does not contain a nul");
    assert!(cstr_from_bytes_until_nul(b"").is_err());
}

#[test]
fn validate_accepts_nul_free_strings() {
    validate_cstr_contents(b"hello");
    validate_cstr_contents(b"");
    narcissus::vulkan_external::helpers::validate_cstr_contents(b"vkCreateInstance");
}
