use fae_agent::skills::{extract_yaml_frontmatter, loaded_skill, skill_identity, skills_to_delete};

#[test]
fn frontmatter_is_split_from_markdown() {
    let content = "---\nname: weather\ndescription: \"Get the weather\"\n---\n\n# Weather\nBody\n";
    let (meta, rest) = extract_yaml_frontmatter(content).unwrap();
    assert_eq!(meta.get("name"), Some(&"weather".to_string()));
    assert_eq!(meta.get("description"), Some(&"Get the weather".to_string()));
    assert_eq!(rest, "# Weather\nBody");
}

#[test]
fn frontmatter_needs_opening_and_closing_lines() {
    assert!(extract_yaml_frontmatter("# No frontmatter\n---\n").is_none());
    assert!(extract_yaml_frontmatter("---\nname: x\n").is_none());
    assert!(extract_yaml_frontmatter("---").is_none());
    let crlf = extract_yaml_frontmatter("---\r\nname: x\r\n---\r\nrest").unwrap();
    assert_eq!(crlf.0.get("name"), Some(&"x".to_string()));
    assert_eq!(crlf.1, "rest");
}

#[test]
fn frontmatter_later_keys_win_and_odd_lines_are_skipped() {
    let (meta, rest) = extract_yaml_frontmatter("---\nname: a\nnot a pair\nname: b : c\n---\n").unwrap();
    assert_eq!(meta.get("name"), Some(&"b : c".to_string()));
    assert_eq!(meta.len(), 1);
    assert_eq!(rest, "");
}

#[test]
fn skill_identity_falls_back() {
    assert_eq!(
        skill_identity("---\ndescription: Weather\n---\n", "weather-dir"),
        ("weather-dir".to_string(), "Weather".to_string())
    );
    assert_eq!(
        skill_identity("no frontmatter", "dir"),
        ("dir".to_string(), "No description provided".to_string())
    );
    let s = loaded_skill("---\nname: w\n---\n", "dir");
    assert_eq!(s.id, "w");
    assert_eq!(s.name, "No description provided");
    assert_eq!(s.enabled, 1);
}

#[test]
fn stale_skills_are_found() {
    let existing = vec!["a".to_string(), "b".to_string(), "c".to_string()];
    let expected = vec!["c".to_string(), "a".to_string()];
    assert_eq!(skills_to_delete(&existing, &expected), vec!["b".to_string()]);
    assert!(skills_to_delete(&existing, &existing).is_empty());
}
