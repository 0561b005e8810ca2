use comrad::listing::{listing_names, parse_listing};

fn entries(list: &[&str]) -> Vec<String> {
    list.iter().map(|s| s.to_string()).collect()
}

#[test]
fn a_listing_of_lines_has_one_entry_for_each_line() {
    assert_eq!(parse_listing("cat\nls\ntar\n"), entries(&["cat", "ls", "tar"]));
    assert_eq!(parse_listing("cat\nls\ntar"), entries(&["cat", "ls", "tar"]));
    assert_eq!(parse_listing("cat\r\nls\r\n"), entries(&["cat", "ls"]));
}

#[test]
fn a_listing_with_commas_has_one_entry_between_commas() {
    assert_eq!(parse_listing("7z, 7za, cat,ls"), entries(&["7z", "7za", "cat", "ls"]));
}

#[test]
fn separators_side_by_side_part_no_empty_entry() {
    assert_eq!(parse_listing(",, a \t\n\n b,,"), entries(&["a", "b"]));
    assert_eq!(parse_listing(" \n,\t\r"), Vec::<String>::new());
    assert_eq!(parse_listing(""), Vec::<String>::new());
}

#[test]
fn an_entry_keeps_every_character_that_is_no_separator() {
    assert_eq!(
        parse_listing("git-log g++ [ x.y é→ü 'q'"),
        entries(&["git-log", "g++", "[", "x.y", "é→ü", "'q'"])
    );
}

#[test]
fn a_listing_keeps_repeats_and_order() {
    assert_eq!(parse_listing("b a b"), entries(&["b", "a", "b"]));
}

#[test]
fn a_listing_names_its_entries_and_nothing_else() {
    assert!(listing_names("cat\nls\ntar\n", "ls"));
    assert!(listing_names("ls", "ls"));
    assert!(!listing_names("ls", "l"));
    assert!(!listing_names("ls", "s"));
    assert!(!listing_names("ls", ""));
    assert!(!listing_names("", ""));
    assert!(!listing_names("cat\nls", "cat\nls"));
    assert!(!listing_names("cat ls", "Cat"));
}
