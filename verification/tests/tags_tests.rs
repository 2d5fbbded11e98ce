use omni_tagger::config::AppConfig;
use omni_tagger::tags::{
    format_tags, format_tags_with_config, parse_tag_table, rewrite_tag, TagTableError,
};

fn strings(items: &[&str]) -> Vec<String> {
    items.iter().map(|s| s.to_string()).collect()
}

#[test]
fn underscores_become_spaces_by_default() {
    let tags = strings(&["long_hair", "blue sky", "solo"]);
    let out = format_tags(&tags, false, &Vec::new());
    assert_eq!(out, "long hair, blue sky, solo");
}

#[test]
fn spaces_become_underscores_when_asked() {
    let tags = strings(&["long hair", "blue sky"]);
    let out = format_tags(&tags, true, &Vec::new());
    assert_eq!(out, "long_hair, blue_sky");
}

#[test]
fn excluded_tags_are_dropped_before_rewriting() {
    // The exclusion list matches the raw tag, before any separator
    // rewriting.
    let tags = strings(&["long_hair", "solo", "blue sky"]);
    let exclusion = strings(&["solo"]);
    let out = format_tags(&tags, false, &exclusion);
    assert_eq!(out, "long hair, blue sky");
}

#[test]
fn no_tags_format_to_an_empty_string() {
    let out = format_tags(&Vec::new(), false, &strings(&["solo"]));
    assert_eq!(out, "");
    let all_excluded = format_tags(&strings(&["solo"]), false, &strings(&["solo"]));
    assert_eq!(all_excluded, "");
}

#[test]
fn rewrite_touches_only_separator_characters() {
    assert_eq!(rewrite_tag("a_b c", false), "a b c");
    assert_eq!(rewrite_tag("a_b c", true), "a_b_c");
    assert_eq!(rewrite_tag("", true), "");
}

#[test]
fn formatting_follows_the_config_snapshot() {
    let mut config = AppConfig::default();
    config.use_underscore = true;
    config.exclusion_list.push("solo".to_string());
    let tags = strings(&["long hair", "solo"]);
    assert_eq!(format_tags_with_config(&tags, &config), "long_hair");
}

#[test]
fn tag_table_takes_the_second_column() {
    let bytes = b"0,general_tag\n1,another tag\n".to_vec();
    let tags = parse_tag_table(&bytes).unwrap();
    assert_eq!(tags, vec!["general_tag".to_string(), "another tag".to_string()]);
}

#[test]
fn single_column_records_carry_no_tag() {
    let bytes = b"alone\nagain\n".to_vec();
    let tags = parse_tag_table(&bytes).unwrap();
    assert!(tags.is_empty());
}

#[test]
fn uneven_records_are_malformed() {
    let bytes = b"a,b\nc\n".to_vec();
    assert!(matches!(
        parse_tag_table(&bytes),
        Err(TagTableError::MalformedCsv)
    ));
}

#[test]
fn empty_table_yields_no_tags() {
    let tags = parse_tag_table(&Vec::new()).unwrap();
    assert!(tags.is_empty());
}
