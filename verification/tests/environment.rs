use cmdlink::environment::{
    list_separator, lookup, merge_search_path, with_program_directory, SEARCH_PATH_VARIABLE,
};

fn pair(name: &str, value: &str) -> (String, String) {
    (name.to_string(), value.to_string())
}

fn merge(current: Option<&str>, dir: &str, sep: char) -> String {
    merge_search_path(current.map(|s| s.to_string()), dir.to_string(), sep)
}

#[test]
fn merge_into_unset_variable_gives_the_directory() {
    assert_eq!(merge(None, "/opt/bin", ':'), "/opt/bin");
    assert_eq!(merge(Some(""), "/opt/bin", ':'), "/opt/bin");
}

#[test]
fn merge_puts_the_directory_in_front() {
    assert_eq!(merge(Some("/usr/bin:/bin"), "/opt/bin", ':'), "/opt/bin:/usr/bin:/bin");
    assert_eq!(merge(Some("/usr/bin"), "/opt/bin", ':'), "/opt/bin:/usr/bin");
}

#[test]
fn merge_drops_earlier_occurrences_of_the_directory() {
    assert_eq!(merge(Some("/usr/bin:/opt/bin:/bin"), "/opt/bin", ':'), "/opt/bin:/usr/bin:/bin");
    assert_eq!(merge(Some("/opt/bin"), "/opt/bin", ':'), "/opt/bin");
    assert_eq!(merge(Some("/opt/bin:/opt/bin:/x:/opt/bin"), "/opt/bin", ':'), "/opt/bin:/x");
    assert_eq!(merge(Some("/opt/bin/sub:/opt"), "/opt/bin", ':'), "/opt/bin:/opt/bin/sub:/opt");
}

#[test]
fn merge_keeps_other_entries_as_they_are() {
    assert_eq!(merge(Some("/a::/b:"), "/c", ':'), "/c:/a::/b:");
    assert_eq!(merge(Some(":"), "/c", ':'), "/c::");
    assert_eq!(merge(Some("/a:/a"), "/c", ':'), "/c:/a:/a");
}

#[test]
fn merge_uses_the_separator_it_is_given() {
    assert_eq!(
        merge(Some("C:\\Windows;C:\\Tools;D:\\x:y"), "C:\\Tools", ';'),
        "C:\\Tools;C:\\Windows;D:\\x:y"
    );
    assert_eq!(merge(Some("/a:/b"), "/b", ';'), "/b;/a:/b");
}

#[test]
fn merge_counts_characters_not_bytes() {
    assert_eq!(merge(Some("/päth:/ß"), "/ß", ':'), "/ß:/päth");
}

#[test]
fn merge_twice_changes_nothing_more() {
    let once = merge(Some("/usr/bin:/opt/bin:/bin"), "/opt/bin", ':');
    assert_eq!(merge(Some(&once), "/opt/bin", ':'), once);
}

#[test]
fn list_separator_follows_the_path_separator() {
    assert_eq!(list_separator('\\'), ';');
    assert_eq!(list_separator('/'), ':');
}

#[test]
fn lookup_takes_the_last_pair_of_a_name() {
    let vars = vec![pair("A", "1"), pair("B", "2"), pair("A", "3")];
    assert_eq!(lookup(&vars, "A"), Some("3".to_string()));
    assert_eq!(lookup(&vars, "B"), Some("2".to_string()));
    assert_eq!(lookup(&vars, "C"), None);
    assert_eq!(lookup(&vec![], "A"), None);
}

#[test]
fn program_directory_goes_in_front_of_the_search_path() {
    let vars = vec![pair("HOME", "/root"), pair("PATH", "/usr/bin:/bin")];
    let assembled = with_program_directory(&vars, Some("/opt/bin".to_string()), ':');
    assert_eq!(lookup(&assembled, SEARCH_PATH_VARIABLE), Some("/opt/bin:/usr/bin:/bin".to_string()));
    assert_eq!(lookup(&assembled, "HOME"), Some("/root".to_string()));
}

#[test]
fn program_directory_makes_a_search_path_where_there_is_none() {
    let vars = vec![pair("HOME", "/root")];
    let assembled = with_program_directory(&vars, Some("/opt/bin".to_string()), ':');
    assert_eq!(lookup(&assembled, "PATH"), Some("/opt/bin".to_string()));
    assert_eq!(lookup(&assembled, "HOME"), Some("/root".to_string()));
}

#[test]
fn no_directory_leaves_the_environment_alone() {
    let vars = vec![pair("HOME", "/root"), pair("PATH", "/usr/bin")];
    assert_eq!(with_program_directory(&vars, None, ':'), vars);
    assert_eq!(with_program_directory(&vars, Some(String::new()), ':'), vars);
}
