use delouse::elfnote::comment_blocks;

#[test]
fn splits_nul_delimited_entries() {
    let data = b"GCC: (GNU) 12.2.0\0clang version 15.0.7\0";
    let out = comment_blocks(data);
    assert_eq!(
        out,
        vec![b"GCC: (GNU) 12.2.0".to_vec(), b"clang version 15.0.7".to_vec()]
    );
}

#[test]
fn empty_section_has_no_entries() {
    let out = comment_blocks(b"");
    assert_eq!(out, Vec::<Vec<u8>>::new());
}

#[test]
fn runs_of_nuls_yield_nothing() {
    let out = comment_blocks(b"\0\0\0");
    assert_eq!(out, Vec::<Vec<u8>>::new());
}

#[test]
fn entry_without_trailing_nul_is_kept() {
    let out = comment_blocks(b"rustc version 1.76.0");
    assert_eq!(out, vec![b"rustc version 1.76.0".to_vec()]);
}

#[test]
fn empty_pieces_between_nuls_are_dropped() {
    let out = comment_blocks(b"\0a\0\0b");
    assert_eq!(out, vec![b"a".to_vec(), b"b".to_vec()]);
}
