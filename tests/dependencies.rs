use regex::Regex;
use runrs::deps::{declarations, extract_dependencies};

fn with_regex(text: &str) -> Vec<String> {
    let re = Regex::new(r"extern\s+crate\s+(?P<name>\w+)\s*;").unwrap();
    re.captures_iter(text).map(|c| c["name"].to_string()).collect()
}

#[test]
fn repeated_declarations_are_deduplicated() {
    let src = "extern crate foo;\nextern crate bar;\nextern crate foo;\nextern crate bar;\nfn main() {}\n";
    assert_eq!(extract_dependencies(src), vec!["foo".to_string(), "bar".to_string()]);
}

#[test]
fn no_declarations_give_nothing() {
    assert!(extract_dependencies("fn main() { println!(\"hi\"); }\n").is_empty());
    assert!(extract_dependencies("").is_empty());
}

#[test]
fn whitespace_between_the_parts_is_free() {
    let src = "extern  crate\tserde_json ;\nextern\ncrate\r\nrand\n;";
    assert_eq!(extract_dependencies(src), vec!["serde_json".to_string(), "rand".to_string()]);
}

#[test]
fn incomplete_declarations_are_not_taken() {
    assert!(extract_dependencies("externcrate foo;").is_empty());
    assert!(extract_dependencies("extern cratefoo;").is_empty());
    assert!(extract_dependencies("extern crate foo").is_empty());
    assert!(extract_dependencies("extern crate ;").is_empty());
    assert!(extract_dependencies("extern crate foo-bar;").is_empty());
    assert!(extract_dependencies("extern crate foo as bar;").is_empty());
}

#[test]
fn declarations_in_comments_are_taken_too() {
    assert_eq!(extract_dependencies("// extern crate log;\n"), vec!["log".to_string()]);
}

#[test]
fn declarations_keep_repeats_in_order() {
    let src = "extern crate b; extern crate a;extern crate b;";
    assert_eq!(declarations(src), vec!["b".to_string(), "a".to_string(), "b".to_string()]);
}

#[test]
fn scanner_agrees_with_the_pattern() {
    let samples = [
        "extern crate foo;",
        "#[macro_use] extern crate lazy_static;\nextern crate regex;\n",
        "myextern crate x1;extern crate y_2 ;",
        "extern crate extern crate z;",
        "extern crate a;extern crate b;extern crate",
        "extern\u{a0}crate\u{2003}nbsp;",
        "let s = \"extern crate quoted;\";",
        "extern crate  ; extern crate ok;",
        "extern crate é;",
        "extern crate café_ü1;\nextern crate 名前 ;",
        "extern crate x\u{301}y;extern crate a\u{2014}b;",
    ];
    for s in samples.iter() {
        assert_eq!(declarations(s), with_regex(s), "on {:?}", s);
    }
}

#[test]
fn unicode_word_characters_make_names() {
    assert_eq!(extract_dependencies("extern crate é;"), vec!["é".to_string()]);
    assert_eq!(
        extract_dependencies("extern crate café;\nextern crate café;\nextern crate naïve_2;"),
        vec!["café".to_string(), "naïve_2".to_string()]
    );
    assert!(extract_dependencies("extern crate a\u{2014}b;").is_empty());
}
