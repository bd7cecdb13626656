use libimg::to_base64;

#[test]
fn known_buffer_encodes_without_padding() {
    // "Man" is TWFu in standard base64
    let uri = to_base64(&vec![b'M', b'a', b'n'], "image/png");
    assert_eq!(uri, "data:image/png;base64,TWFu");
}

#[test]
fn short_tail_gets_no_padding_characters() {
    // "Ma" is TWE= padded; the pipeline's engine leaves the '=' off
    let uri = to_base64(&vec![b'M', b'a'], "image/png");
    assert_eq!(uri, "data:image/png;base64,TWE");
    assert!(!uri.contains('='));

    let uri = to_base64(&vec![b'M'], "image/gif");
    assert_eq!(uri, "data:image/gif;base64,TQ");
    assert!(!uri.contains('='));
}

#[test]
fn uri_starts_with_content_type_prefix() {
    let uri = to_base64(&vec![0u8, 1, 2, 3], "image/jpeg");
    assert!(uri.starts_with("data:image/jpeg;base64,"));
}

#[test]
fn empty_buffer_gives_bare_prefix() {
    let uri = to_base64(&Vec::new(), "image/png");
    assert_eq!(uri, "data:image/png;base64,");
}
