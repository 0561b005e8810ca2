use comrad::catalog::{dedup_names, get_commands, sort_by_keys, sort_names};

fn names(list: &[&str]) -> Vec<String> {
    list.iter().map(|s| s.to_string()).collect()
}

#[test]
fn catalog_is_sorted_without_regard_to_case() {
    assert_eq!(get_commands(&names(&["ls", "Bash", "cat"])), names(&["Bash", "cat", "ls"]));
}

#[test]
fn catalog_folds_before_it_compares() {
    // By code points alone "B" would come before "a".
    assert_eq!(get_commands(&names(&["a", "B"])), names(&["a", "B"]));
    assert_eq!(get_commands(&names(&["B", "a"])), names(&["a", "B"]));
}

#[test]
fn catalog_drops_repeats_that_stand_side_by_side() {
    assert_eq!(get_commands(&names(&["ls", "cat", "ls", "ls"])), names(&["cat", "ls"]));
}

#[test]
fn catalog_keeps_names_that_differ_only_in_case() {
    assert_eq!(get_commands(&names(&["bash", "Bash"])), names(&["bash", "Bash"]));
    assert_eq!(get_commands(&names(&["Bash", "bash"])), names(&["Bash", "bash"]));
}

#[test]
fn catalog_keeps_repeats_that_do_not_stand_side_by_side() {
    assert_eq!(get_commands(&names(&["a", "A", "a"])), names(&["a", "A", "a"]));
}

#[test]
fn catalog_of_nothing_is_empty() {
    assert_eq!(get_commands(&Vec::new()), Vec::<String>::new());
}

#[test]
fn catalog_of_one_name_is_that_name() {
    assert_eq!(get_commands(&names(&["awk"])), names(&["awk"]));
}

#[test]
fn sort_is_stable() {
    assert_eq!(
        sort_names(&names(&["b", "A", "a", "B", "a"])),
        names(&["A", "a", "a", "b", "B"])
    );
}

#[test]
fn sort_orders_a_prefix_first() {
    assert_eq!(sort_names(&names(&["lsblk", "ls", "l"])), names(&["l", "ls", "lsblk"]));
}

#[test]
fn sort_orders_by_code_point_within_a_fold() {
    assert_eq!(
        sort_names(&names(&["zip", "g++", "gcc", "7z", "_x"])),
        names(&["7z", "_x", "g++", "gcc", "zip"])
    );
}

#[test]
fn sort_handles_names_outside_ascii() {
    assert_eq!(
        sort_names(&names(&["Éclair", "zsh", "écho"])),
        names(&["zsh", "écho", "Éclair"])
    );
}

#[test]
fn dedup_compares_each_name_with_the_one_before() {
    assert_eq!(dedup_names(&names(&["a", "a", "b", "a", "a", "a"])), names(&["a", "b", "a"]));
    assert_eq!(dedup_names(&names(&["a", "A"])), names(&["a", "A"]));
    assert_eq!(dedup_names(&Vec::new()), Vec::<String>::new());
}

#[test]
fn catalog_is_ordered_and_free_of_neighbouring_repeats() {
    let found = names(&["tar", "Tar", "awk", "sed", "awk", "SED", "zip", "tar", "Awk", "ls"]);
    let catalog = get_commands(&found);
    for pair in catalog.windows(2) {
        assert!(pair[0].to_lowercase() <= pair[1].to_lowercase());
        assert_ne!(pair[0], pair[1]);
    }
    for name in &found {
        assert!(catalog.contains(name));
    }
    for name in &catalog {
        assert!(found.contains(name));
    }
}

#[test]
fn sort_by_keys_orders_the_names_by_the_keys_given() {
    assert_eq!(
        sort_by_keys(&names(&["ls", "Bash", "cat"]), &names(&["ls", "bash", "cat"])),
        names(&["Bash", "cat", "ls"])
    );
    assert_eq!(
        sort_by_keys(&names(&["x", "y", "z"]), &names(&["3", "1", "2"])),
        names(&["y", "z", "x"])
    );
    assert_eq!(sort_by_keys(&Vec::new(), &Vec::new()), Vec::<String>::new());
}

#[test]
fn sort_by_keys_compares_the_keys_as_they_are() {
    assert_eq!(
        sort_by_keys(&names(&["first", "second"]), &names(&["a", "B"])),
        names(&["second", "first"])
    );
}

#[test]
fn sort_by_keys_keeps_names_of_equal_keys_in_their_order() {
    assert_eq!(
        sort_by_keys(&names(&["d", "c", "b", "a"]), &names(&["k", "j", "k", "j"])),
        names(&["c", "a", "d", "b"])
    );
}
