//! The secret byte string itself.

use readpass::SecureString;

#[test]
fn a_fresh_secret_is_empty() {
    let s = SecureString::new();
    assert!(s.is_empty());
    assert_eq!(s.len(), 0);
    assert_eq!(s.as_bytes(), &b""[..]);
}

#[test]
fn pushed_bytes_are_readable_in_order() {
    let mut s = SecureString::new();
    s.push(b'p');
    s.push(b'w');
    assert_eq!(s.len(), 2);
    assert!(!s.is_empty());
    assert_eq!(s.byte_at(0), b'p');
    assert_eq!(s.byte_at(1), b'w');
    assert_eq!(s.as_bytes(), &b"pw"[..]);
}
