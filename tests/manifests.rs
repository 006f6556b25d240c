use runrs::error::CacheError;
use runrs::manifest::{
    add_dependencies, add_workspace_member, read_manifest, write_manifest, MAX_NESTING_MARKS,
};

fn members(text: &str) -> Vec<String> {
    let v: toml::Value = toml::from_str(text).unwrap();
    v["workspace"]["members"]
        .as_array()
        .unwrap()
        .iter()
        .map(|m| m.as_str().unwrap().to_string())
        .collect()
}

fn register(text: &str, name: &str) -> Result<String, CacheError> {
    let doc = read_manifest(text)?;
    let doc = add_workspace_member(doc, &name.to_string())?;
    write_manifest(&doc)
}

#[test]
fn member_is_added_to_an_empty_workspace() {
    let out = register("[workspace]\nmembers = []\n", "abc").unwrap();
    assert_eq!(members(&out), vec!["abc".to_string()]);
}

#[test]
fn registering_twice_lists_the_member_once() {
    let once = register("[workspace]\nmembers = []\n", "abc").unwrap();
    let twice = register(&once, "abc").unwrap();
    assert_eq!(members(&twice), vec!["abc".to_string()]);
}

#[test]
fn repeats_already_listed_are_dropped() {
    let out = register("[workspace]\nmembers = [\"a\", \"b\", \"a\"]\n", "c").unwrap();
    assert_eq!(members(&out), vec!["a".to_string(), "b".to_string(), "c".to_string()]);
}

#[test]
fn other_workspace_keys_are_kept() {
    let out = register("[workspace]\nmembers = [\"a\"]\nexclude = [\"x\"]\n\n[other]\nk = 1\n", "b")
        .unwrap();
    let v: toml::Value = toml::from_str(&out).unwrap();
    assert_eq!(v["workspace"]["exclude"][0].as_str(), Some("x"));
    assert_eq!(v["other"]["k"].as_integer(), Some(1));
    assert_eq!(members(&out), vec!["a".to_string(), "b".to_string()]);
}

#[test]
fn malformed_text_is_corruption() {
    assert!(matches!(read_manifest("[workspace\nmembers = ["), Err(CacheError::ManifestCorruption)));
}

#[test]
fn workspace_without_member_list_is_corruption() {
    assert_eq!(register("[workspace]\n", "a"), Err(CacheError::ManifestCorruption));
    assert_eq!(register("[package]\nname = \"x\"\n", "a"), Err(CacheError::ManifestCorruption));
    assert_eq!(register("[workspace]\nmembers = [1, 2]\n", "a"), Err(CacheError::ManifestCorruption));
    assert_eq!(register("workspace = 3\n", "a"), Err(CacheError::ManifestCorruption));
}

const UNIT_MANIFEST: &str = "[package]\nname = \"hello-abc\"\nversion = \"0.1.0\"\nedition = \"2021\"\n\n[dependencies]\n";

#[test]
fn dependencies_are_added_at_any_version() {
    let doc = read_manifest(UNIT_MANIFEST).unwrap();
    let doc = add_dependencies(doc, &vec!["rand".to_string(), "regex".to_string()]).unwrap();
    let out = write_manifest(&doc).unwrap();
    let v: toml::Value = toml::from_str(&out).unwrap();
    assert_eq!(v["dependencies"]["rand"].as_str(), Some("*"));
    assert_eq!(v["dependencies"]["regex"].as_str(), Some("*"));
    assert_eq!(v["dependencies"].as_table().unwrap().len(), 2);
    assert_eq!(v["package"]["name"].as_str(), Some("hello-abc"));
}

#[test]
fn existing_dependencies_are_kept() {
    let text = "[package]\nname = \"x\"\n\n[dependencies]\nlog = \"0.4\"\nrand = \"0.8\"\n";
    let doc = read_manifest(text).unwrap();
    let doc = add_dependencies(doc, &vec!["rand".to_string()]).unwrap();
    let v: toml::Value = toml::from_str(&write_manifest(&doc).unwrap()).unwrap();
    assert_eq!(v["dependencies"]["log"].as_str(), Some("0.4"));
    assert_eq!(v["dependencies"]["rand"].as_str(), Some("*"));
}

#[test]
fn unit_manifest_without_dependency_table_is_corruption() {
    let doc = read_manifest("[package]\nname = \"x\"\n").unwrap();
    assert_eq!(add_dependencies(doc, &vec!["rand".to_string()]).err(), Some(CacheError::ManifestCorruption));
}

#[test]
fn deeply_nested_text_is_corruption() {
    let text = format!("a = {}", "[".repeat(100_000));
    assert_eq!(read_manifest(&text).err(), Some(CacheError::ManifestCorruption));
    let text = format!("a = {}1{}", "{b = ".repeat(MAX_NESTING_MARKS + 1), "}".repeat(MAX_NESTING_MARKS + 1));
    assert_eq!(read_manifest(&text).err(), Some(CacheError::ManifestCorruption));
}

#[test]
fn nesting_at_the_bound_is_read_and_written() {
    let arrays = format!("a = {}1{}\n", "[".repeat(MAX_NESTING_MARKS), "]".repeat(MAX_NESTING_MARKS));
    let doc = read_manifest(&arrays).unwrap();
    let out = write_manifest(&doc).unwrap();
    let back: toml::Value = toml::from_str(&out).unwrap();
    assert_eq!(back, toml::from_str::<toml::Value>(&arrays).unwrap());

    let tables = format!("a = {}1{}\n", "{b = ".repeat(MAX_NESTING_MARKS), "}".repeat(MAX_NESTING_MARKS));
    let doc = read_manifest(&tables).unwrap();
    let out = write_manifest(&doc).unwrap();
    let back: toml::Value = toml::from_str(&out).unwrap();
    assert_eq!(back, toml::from_str::<toml::Value>(&tables).unwrap());

    let dotted = format!("{}b = 1\n", "a.".repeat(MAX_NESTING_MARKS));
    let doc = read_manifest(&dotted).unwrap();
    assert!(write_manifest(&doc).is_ok());
}

#[test]
fn version_strings_count_towards_the_bound() {
    let mut text = String::from("[package]\nname = \"x\"\n\n[dependencies]\n");
    // Two `[` so far, and two `.` for each dependency.
    let fits = (MAX_NESTING_MARKS - 2) / 2;
    for i in 0..fits {
        text.push_str(&format!("d{} = \"1.0.0\"\n", i));
    }
    assert!(read_manifest(&text).is_ok());
    for i in fits..fits + 1 {
        text.push_str(&format!("d{} = \"1.0.0\"\n", i));
    }
    assert_eq!(read_manifest(&text).err(), Some(CacheError::ManifestCorruption));
}
