use modscan::artifact::{is_artifact, jar_files};
use std::path::Path;

fn names(list: &[&str]) -> Vec<String> {
    list.iter().map(|name| name.to_string()).collect()
}

fn has_jar_extension(name: &str) -> bool {
    Path::new(name).extension().and_then(|extension| extension.to_str()) == Some("jar")
}

#[test]
fn a_jar_file_is_a_mod_file() {
    assert!(is_artifact("sodium.jar"));
    assert!(is_artifact("a.jar"));
}

#[test]
fn only_the_last_extension_counts() {
    assert!(is_artifact("sodium-0.5.3+mc1.20.1.jar"));
    assert!(is_artifact("archive.tar.jar"));
    assert!(!is_artifact("sodium.jar.disabled"));
    assert!(!is_artifact("sodium.jar.txt"));
}

#[test]
fn the_extension_is_matched_case_sensitively() {
    assert!(!is_artifact("sodium.JAR"));
    assert!(!is_artifact("sodium.Jar"));
    assert!(!is_artifact("sodium.jaR"));
}

#[test]
fn a_name_without_a_stem_has_no_extension() {
    assert!(!is_artifact(".jar"));
    assert!(is_artifact("..jar"));
    assert!(is_artifact("x.jar"));
}

#[test]
fn short_and_odd_names_are_no_mod_files() {
    assert!(!is_artifact(""));
    assert!(!is_artifact("jar"));
    assert!(!is_artifact("."));
    assert!(!is_artifact(".."));
    assert!(!is_artifact("sodium"));
    assert!(!is_artifact("sodium."));
    assert!(!is_artifact("sodium.jarr"));
    assert!(!is_artifact("sodium.ja"));
    assert!(!is_artifact("sodiumjar"));
    assert!(!is_artifact("sodium.zip"));
}

#[test]
fn names_are_read_by_characters_not_bytes() {
    assert!(is_artifact("módßé.jar"));
    assert!(is_artifact("模组.jar"));
    assert!(!is_artifact("模组.zip"));
    assert!(!is_artifact("é.ja"));
}

#[test]
fn is_artifact_agrees_with_the_extension_of_a_path() {
    let samples = [
        "", ".", "..", "...", "jar", ".jar", "..jar", "a.jar", "a.b.jar", "a.jar.b", "a.JAR",
        "a.jar ", " .jar", "a..jar", "a.jar.", "ab.jar", "abc.jar", "abcd", "abcd.", ".a.jar",
        "é.jar", "模组.jar", "jar.jar", "a.jarjar", "a.j.a.r", "a-jar", "a.ｊar",
    ];
    for name in samples {
        assert_eq!(is_artifact(name), has_jar_extension(name), "{:?}", name);
    }
}

#[test]
fn jar_files_keeps_the_mod_files_in_order() {
    let listing = names(&["b.jar", "readme.txt", "a.jar", "config", "c.jar", "c.JAR"]);
    assert_eq!(jar_files(&listing), names(&["b.jar", "a.jar", "c.jar"]));
}

#[test]
fn jar_files_of_an_empty_directory_is_empty() {
    assert_eq!(jar_files(&Vec::new()), Vec::<String>::new());
    assert_eq!(jar_files(&names(&["notes.txt", "saves"])), Vec::<String>::new());
}

#[test]
fn jar_files_keeps_a_name_as_often_as_it_is_listed() {
    let listing = names(&["a.jar", "a.jar", "b.txt"]);
    assert_eq!(jar_files(&listing), names(&["a.jar", "a.jar"]));
}

#[test]
fn the_number_of_mod_files_does_not_depend_on_the_other_entries_or_the_order() {
    let mods = ["one.jar", "two.jar", "three.jar"];
    let others = ["a.txt", "b.zip", ".jar", "c.JAR", "d"];
    let listings = [
        names(&["one.jar", "two.jar", "three.jar"]),
        names(&["three.jar", "a.txt", "one.jar", "b.zip", "two.jar"]),
        names(&["a.txt", "b.zip", ".jar", "c.JAR", "d", "two.jar", "three.jar", "one.jar"]),
        names(&["two.jar", "d", "d", "d", "one.jar", "c.JAR", "three.jar"]),
    ];
    for listing in listings {
        let mut found = jar_files(&listing);
        assert_eq!(found.len(), mods.len());
        found.sort();
        let mut expected = names(&mods);
        expected.sort();
        assert_eq!(found, expected);
        assert!(found.iter().all(|name| !others.contains(&name.as_str())));
    }
}
