use gba::link::split_link_list;

#[test]
fn a_list_splits_at_every_colon() {
    let r = split_link_list("a:bc:def");
    assert_eq!(r.len(), 3);
    assert_eq!(r[0], "a");
    assert_eq!(r[1], "bc");
    assert_eq!(r[2], "def");
}

#[test]
fn a_colon_free_list_is_one_entry() {
    let r = split_link_list("-Tlinker.ld");
    assert_eq!(r.len(), 1);
    assert_eq!(r[0], "-Tlinker.ld");
}

#[test]
fn an_empty_list_is_one_empty_entry() {
    let r = split_link_list("");
    assert_eq!(r.len(), 1);
    assert_eq!(r[0], "");
}

#[test]
fn leading_and_trailing_colons_keep_empty_entries() {
    let r = split_link_list(":x:");
    assert_eq!(r.len(), 3);
    assert_eq!(r[0], "");
    assert_eq!(r[1], "x");
    assert_eq!(r[2], "");
}

#[test]
fn only_colons_give_only_empty_entries() {
    let r = split_link_list("::");
    assert_eq!(r.len(), 3);
    assert!(r.iter().all(|p| p.is_empty()));
}
