use documentation_as_code_gxp::features::{
    collect, is_feature_file, not_unique, read_feature, title_form, Feature, FeatureFile,
};
use documentation_as_code_gxp::get_specification;
use documentation_as_code_gxp::tables::Requirements;

fn gherkin(name: &str) -> String {
    format!("Feature: {name}\n\n  Scenario: s\n    Given g\n    When w\n    Then t\n")
}

fn file(path: &str, text: &str) -> FeatureFile {
    FeatureFile { path: path.to_string(), content: Ok(text.to_string()) }
}

fn feature(path: &str, name: &str, text: &str) -> Result<Feature<String>, String> {
    Ok(Feature { path: path.to_string(), text: text.to_string(), name: name.to_string() })
}

fn table(requirements: &Requirements) -> Vec<(&str, &str)> {
    requirements.iter().map(|(id, text)| (id.as_str(), text.as_str())).collect()
}

#[test]
fn feature_files_end_in_feature() {
    assert!(is_feature_file("some.feature"));
    assert!(is_feature_file("a.b.feature"));
    assert!(is_feature_file("..feature"));
    assert!(is_feature_file("ä.feature"));
    assert!(!is_feature_file(".feature"));
    assert!(!is_feature_file("feature"));
    assert!(!is_feature_file("some.feature.md"));
    assert!(!is_feature_file("some.Feature"));
    assert!(!is_feature_file("somefeature"));
    assert!(!is_feature_file("some.md"));
    assert!(!is_feature_file(""));
}

#[test]
fn well_formed_file_gives_its_feature() {
    let text = gherkin("FS-1 - Login");
    match read_feature(file("features/login.feature", &text)) {
        Ok(feature) => {
            assert_eq!(feature.name, "FS-1 - Login");
            assert_eq!(feature.path, "features/login.feature");
            assert_eq!(feature.text, text);
        }
        Err(message) => panic!("{message}"),
    }
}

#[test]
fn file_without_final_newline_is_well_formed() {
    match read_feature(file("a.feature", "Feature: FS-2 - Logout")) {
        Ok(feature) => assert_eq!(feature.name, "FS-2 - Logout"),
        Err(message) => panic!("{message}"),
    }
}

#[test]
fn malformed_file_gives_a_message() {
    assert!(read_feature(file("a.feature", "Scenario without feature")).is_err());
    assert!(read_feature(file("a.feature", "")).is_err());
}

#[test]
fn unreadable_file_gives_its_message() {
    let unreadable =
        FeatureFile { path: "a.feature".to_string(), content: Err("Can't read a.feature".to_string()) };
    match read_feature(unreadable) {
        Ok(_) => panic!("no error"),
        Err(message) => assert_eq!(message, "Can't read a.feature"),
    }
}

#[test]
fn messages_on_features() {
    assert_eq!(
        title_form("Login", "features/login.feature"),
        "Every feature's title must be of the form \"FS-<id> - <title>\", but Login in features/login.feature does not."
    );
    assert_eq!(not_unique("FS-1"), "Headings must be unique, but FS-1 is not");
}

#[test]
fn features_are_gathered_in_their_order() {
    let mut errors = vec![];
    let found = collect(
        vec![
            feature("b.feature", "FS-2 - b", "text b"),
            feature("a.feature", "FS-1 - a", "text a"),
        ],
        &mut errors,
    );
    assert_eq!(errors, Vec::<String>::new());
    assert_eq!(table(&found), vec![("FS-2", "text b"), ("FS-1", "text a")]);
}

#[test]
fn second_feature_of_an_identifier_is_an_error() {
    let mut errors = vec![];
    let found = collect(
        vec![
            feature("a.feature", "FS-1 - a", "first"),
            feature("b.feature", "FS-1 - b", "second"),
            feature("c.feature", "FS-2 - c", "third"),
        ],
        &mut errors,
    );
    assert_eq!(errors, vec!["Headings must be unique, but FS-1 is not"]);
    assert_eq!(table(&found), vec![("FS-1", "first"), ("FS-2", "third")]);
}

#[test]
fn feature_without_identifier_is_an_error() {
    let mut errors = vec![];
    let found = collect(vec![feature("features/a.feature", "Login", "text")], &mut errors);
    assert_eq!(
        errors,
        vec!["Every feature's title must be of the form \"FS-<id> - <title>\", but Login in features/a.feature does not."]
    );
    assert!(found.is_empty());
}

#[test]
fn identifiers_without_prefix_are_reported_last() {
    let mut errors = vec!["before".to_string()];
    let found = collect(
        vec![
            feature("a.feature", "REQ-1 - a", "a"),
            Err("Can't open b.feature".to_string()),
            feature("c.feature", "FS-1 - c", "c"),
            feature("d.feature", "fs-2 - d", "d"),
        ],
        &mut errors,
    );
    assert_eq!(
        errors,
        vec![
            "before",
            "Can't open b.feature",
            "Headings in requirements must start with \"FS-\". \"REQ-1\" does not.",
            "Headings in requirements must start with \"FS-\". \"fs-2\" does not.",
        ]
    );
    assert_eq!(table(&found), vec![("REQ-1", "a"), ("FS-1", "c"), ("fs-2", "d")]);
}

#[test]
fn directory_that_cannot_be_listed_is_one_error() {
    let mut errors = vec![];
    let found = get_specification(Err("Can't open directory x/features".to_string()), &mut errors);
    assert_eq!(errors, vec!["Can't open directory x/features"]);
    assert!(found.is_empty());
}

#[test]
fn directory_without_features_has_no_requirements() {
    let mut errors = vec![];
    let found = get_specification(Ok(vec![]), &mut errors);
    assert_eq!(errors, Vec::<String>::new());
    assert!(found.is_empty());
}

#[test]
fn requirements_are_read_from_the_feature_files() {
    let first = gherkin("FS-1 - Login");
    let second = gherkin("FS-2 - Logout");
    let mut errors = vec![];
    let found = get_specification(
        Ok(vec![
            file("features/login.feature", &first),
            FeatureFile {
                path: "features/broken.feature".to_string(),
                content: Err("Can't read features/broken.feature".to_string()),
            },
            file("features/logout.feature", &second),
            file("features/again.feature", &first),
            file("features/untitled.feature", &gherkin("Untitled")),
        ]),
        &mut errors,
    );
    assert_eq!(
        errors,
        vec![
            "Can't read features/broken.feature",
            "Headings must be unique, but FS-1 is not",
            "Every feature's title must be of the form \"FS-<id> - <title>\", but Untitled in features/untitled.feature does not.",
        ]
    );
    assert_eq!(table(&found), vec![("FS-1", first.as_str()), ("FS-2", second.as_str())]);
}

#[test]
fn malformed_file_is_passed_over() {
    let text = gherkin("FS-1 - Login");
    let mut errors = vec![];
    let found = get_specification(
        Ok(vec![file("features/bad.feature", "no gherkin"), file("features/login.feature", &text)]),
        &mut errors,
    );
    assert_eq!(errors.len(), 1);
    assert!(errors[0].starts_with("Error at "));
    assert_eq!(table(&found), vec![("FS-1", text.as_str())]);
}
