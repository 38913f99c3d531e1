use fersk::hash::hash_bytes;

#[test]
fn hash_of_empty_input() {
    assert_eq!(
        hash_bytes(b""),
        "e3b0c44298fc1c149afbf4c8996fb92427ae41e4649b934ca495991b7852b855"
    );
}

#[test]
fn hash_of_abc() {
    assert_eq!(
        hash_bytes(b"abc"),
        "ba7816bf8f01cfea414140de5dae2223b00361a396177a9cb410ff61f20015ad"
    );
}

#[test]
fn hash_of_a_path() {
    assert_eq!(
        hash_bytes(b"/home/user/project"),
        hash_bytes(b"/home/user/project"),
    );
}

#[test]
fn hash_is_fixed_length_hex() {
    for input in [&b""[..], b"x", b"/some/path", b"another"] {
        let h = hash_bytes(input);
        assert_eq!(h.len(), 64);
        assert!(h.chars().all(|c| c.is_ascii_hexdigit() && !c.is_ascii_uppercase()));
    }
}

#[test]
fn distinct_paths_hash_differently() {
    assert_ne!(hash_bytes(b"/home/user/project"), hash_bytes(b"/home/user/project2"));
    assert_ne!(hash_bytes(b"/a"), hash_bytes(b"/b"));
}
