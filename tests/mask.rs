use sdk_server::mask_string;

#[test]
fn mask_short_strings_fully() {
    assert_eq!(mask_string(""), "");
    assert_eq!(mask_string("a"), "*");
    assert_eq!(mask_string("ab"), "**");
    assert_eq!(mask_string("abc"), "***");
}

#[test]
fn mask_four_keeps_one_each_side() {
    assert_eq!(mask_string("abcd"), "a****d");
    assert_eq!(mask_string("abcde"), "a****e");
}

#[test]
fn mask_six_keeps_two_at_end() {
    assert_eq!(mask_string("abcdef"), "a****ef");
    assert_eq!(mask_string("abcdefghi"), "a****hi");
}

#[test]
fn mask_ten_keeps_two_each_side() {
    assert_eq!(mask_string("abcdefghij"), "ab****ij");
    assert_eq!(mask_string("user@example.com"), "us****om");
}

#[test]
fn mask_counts_characters_not_bytes() {
    assert_eq!(mask_string("äöü"), "***");
    assert_eq!(mask_string("äöüß"), "ä****ß");
    assert_eq!(mask_string("日本語のテキストです"), "日本****です");
}
