use variable_map::hash_line;

#[test]
fn empty_text_hashes_to_offset_basis() {
    assert_eq!(hash_line(""), 0xcbf2_9ce4_8422_2325);
}

#[test]
fn single_letter_has_known_digest() {
    assert_eq!(hash_line("a"), 0xaf63_dc4c_8601_ec8c);
}

#[test]
fn word_has_known_digest() {
    assert_eq!(hash_line("foobar"), 0x8594_4171_f739_67e8);
}

#[test]
fn tag_sets_have_known_keys() {
    assert_eq!(hash_line("git, branch"), 0x8f99_0a4d_957c_e1af);
    assert_eq!(hash_line("git, checkout"), 0x1424_103b_6955_4c0b);
}

#[test]
fn text_outside_ascii_is_hashed_by_its_utf8_bytes() {
    assert_eq!(hash_line("\u{e9}"), 0x0ac2_1707_b718_1e01);
}

#[test]
fn equal_texts_have_equal_keys() {
    let owned = String::from("docker, compose");
    assert_eq!(hash_line(&owned), hash_line("docker, compose"));
}

#[test]
fn order_of_bytes_matters() {
    assert_ne!(hash_line("ab"), hash_line("ba"));
}
