use reflections::tags::TagService;

#[test]
fn extract_tags_finds_hash_tags() {
    let content = "#alpha #beta-project #gamma123";
    let tags = TagService::extract_tags(content);
    assert_eq!(tags, vec!["alpha", "beta-project", "gamma123"]);
}

#[test]
fn extract_tags_ignores_headings() {
    let content = "# Heading\n## Sub";
    let tags = TagService::extract_tags(content);
    assert_eq!(tags, Vec::<String>::new());
}

#[test]
fn extract_tags_ignores_double_hash_no_space() {
    let content = "##double";
    let tags = TagService::extract_tags(content);
    assert_eq!(tags, Vec::<String>::new());
}

#[test]
fn extract_tags_deduplicates() {
    let content = "#alpha #alpha #alpha";
    let tags = TagService::extract_tags(content);
    assert_eq!(tags, vec!["alpha"]);
}

#[test]
fn extract_tags_case_insensitive() {
    let content = "#Alpha #ALPHA";
    let tags = TagService::extract_tags(content);
    assert_eq!(tags, vec!["alpha"]);
}

#[test]
fn extract_tags_with_punctuation_prefix() {
    let content = "(#alpha) and #beta";
    let tags = TagService::extract_tags(content);
    assert_eq!(tags, vec!["alpha", "beta"]);
}

#[test]
fn extract_tags_needs_two_chars_and_a_leading_letter() {
    assert_eq!(TagService::extract_tags("#a #1abc #ab"), vec!["ab"]);
    assert_eq!(TagService::extract_tags("word#tag\n\t#next_one x"), vec!["next_one"]);
    assert_eq!(TagService::extract_tags("#x_y-z."), vec!["x_y-z"]);
    assert_eq!(TagService::extract_tags(""), Vec::<String>::new());
}

#[test]
fn extract_tags_keeps_first_occurrence_order() {
    assert_eq!(TagService::extract_tags("#bb #Aa #bb #aa #cc"), vec!["bb", "aa", "cc"]);
}

#[test]
fn lower_casing_the_text_keeps_the_tags() {
    let text = "Notes on #Rust and (#VERUS) with #rust again";
    assert_eq!(TagService::extract_tags(text), TagService::extract_tags(&text.to_ascii_lowercase()));
    assert_eq!(TagService::extract_tags(text), vec!["rust", "verus"]);
}

#[test]
fn extract_tags_after_any_punctuation() {
    let tags = TagService::extract_tags("[#alpha], \"#beta\"; x#inword, a-#dash");
    assert_eq!(tags, vec!["alpha", "beta"]);
}

#[test]
fn extract_tags_at_line_start() {
    let tags = TagService::extract_tags("first line\n#Second-Tag here");
    assert_eq!(tags, vec!["second-tag"]);
}

#[test]
fn extract_tags_not_inside_words_of_any_script() {
    let tags = TagService::extract_tags("café#tag 9#num é #ok");
    assert_eq!(tags, vec!["ok"]);
}
