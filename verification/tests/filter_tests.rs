use comrad::filter::{filtered_view, fold_names, view_of_folded};
use comrad::text::name_matches;

fn catalog_of_three() -> Vec<String> {
    vec!["Bash".to_string(), "cat".to_string(), "ls".to_string()]
}

#[test]
fn empty_query_shows_the_whole_catalog() {
    assert_eq!(filtered_view(&catalog_of_three(), ""), vec![0, 1, 2]);
}

#[test]
fn query_a_shows_bash_and_cat() {
    let catalog = catalog_of_three();
    let view = filtered_view(&catalog, "a");
    assert_eq!(view, vec![0, 1]);
    let shown: Vec<&str> = view.iter().map(|i| catalog[*i].as_str()).collect();
    assert_eq!(shown, vec!["Bash", "cat"]);
}

#[test]
fn query_is_folded_too() {
    assert_eq!(filtered_view(&catalog_of_three(), "A"), vec![0, 1]);
    assert_eq!(filtered_view(&catalog_of_three(), "bASH"), vec![0]);
    assert_eq!(filtered_view(&catalog_of_three(), "LS"), vec![2]);
}

#[test]
fn query_without_match_shows_nothing() {
    assert_eq!(filtered_view(&catalog_of_three(), "zzz"), Vec::<usize>::new());
    assert_eq!(filtered_view(&catalog_of_three(), "bashh"), Vec::<usize>::new());
}

#[test]
fn filter_of_an_empty_catalog_is_empty() {
    assert_eq!(filtered_view(&Vec::new(), ""), Vec::<usize>::new());
    assert_eq!(filtered_view(&Vec::new(), "a"), Vec::<usize>::new());
}

#[test]
fn filter_is_plain_containment() {
    let catalog = vec!["a.b".to_string(), "axb".to_string(), "ab".to_string()];
    assert_eq!(filtered_view(&catalog, "."), vec![0]);
    assert_eq!(filtered_view(&catalog, "a.b"), vec![0]);
    assert_eq!(filtered_view(&catalog, "ba"), Vec::<usize>::new());
}

#[test]
fn filtered_view_ascends_and_holds_every_match() {
    let catalog: Vec<String> =
        ["awk", "Bash", "cat", "DASH", "grep", "ls", "zsh"].iter().map(|s| s.to_string()).collect();
    let view = filtered_view(&catalog, "sH");
    assert_eq!(view, vec![1, 3, 6]);
    for pair in view.windows(2) {
        assert!(pair[0] < pair[1]);
    }
    for (i, name) in catalog.iter().enumerate() {
        assert_eq!(view.contains(&i), name.to_lowercase().contains("sh"));
    }
}

#[test]
fn matches_ignores_case_on_both_sides() {
    assert!(name_matches("Bash", "BA"));
    assert!(name_matches("bash", "ASH"));
    assert!(name_matches("CAT", "a"));
    assert!(name_matches("ls", ""));
    assert!(name_matches("", ""));
    assert!(!name_matches("ls", "a"));
    assert!(!name_matches("", "a"));
    assert!(!name_matches("cat", "cats"));
}

#[test]
fn view_of_folded_searches_the_folded_forms_as_they_are() {
    let folded = vec!["bash".to_string(), "cat".to_string(), "ls".to_string()];
    assert_eq!(view_of_folded(&folded, ""), vec![0, 1, 2]);
    assert_eq!(view_of_folded(&folded, "a"), vec![0, 1]);
    assert_eq!(view_of_folded(&folded, "s"), vec![0, 2]);
    assert_eq!(view_of_folded(&folded, "A"), Vec::<usize>::new());
    assert_eq!(view_of_folded(&vec!["Bash".to_string()], "b"), Vec::<usize>::new());
    assert_eq!(view_of_folded(&Vec::new(), ""), Vec::<usize>::new());
}

#[test]
fn fold_names_folds_each_name_in_its_place() {
    let names = vec!["Bash".to_string(), "cat".to_string(), "ÉCHO".to_string(), "".to_string()];
    assert_eq!(
        fold_names(&names),
        vec!["bash".to_string(), "cat".to_string(), "écho".to_string(), "".to_string()]
    );
    assert_eq!(fold_names(&Vec::new()), Vec::<String>::new());
}
