use keytui::records::{project_group, DetailLevel, Record};

fn fields(v: &[&str]) -> Vec<String> {
    v.iter().map(|s| s.to_string()).collect()
}

#[test]
fn detail_toggle_is_monotone_and_saturates() {
    let mut d = DetailLevel::Minimum;
    d.increase();
    assert_eq!(d, DetailLevel::Standard);
    d.increase();
    assert_eq!(d, DetailLevel::Full);
    // once at the maximum, further toggles change nothing
    d.increase();
    assert_eq!(d, DetailLevel::Full);
    d.increase();
    assert_eq!(d, DetailLevel::Full);
}

#[test]
fn detail_parsing_accepts_the_three_level_names() {
    assert_eq!(DetailLevel::parse("minimum"), Some(DetailLevel::Minimum));
    assert_eq!(DetailLevel::parse("standard"), Some(DetailLevel::Standard));
    assert_eq!(DetailLevel::parse("full"), Some(DetailLevel::Full));
    assert_eq!(DetailLevel::parse("FULL"), None);
    assert_eq!(DetailLevel::parse(""), None);
}

#[test]
fn projection_shows_more_fields_at_higher_detail() {
    let group = fields(&["first line", "second line", "third line"]);
    assert_eq!(
        project_group(&group, DetailLevel::Minimum, false),
        fields(&["first line"])
    );
    assert_eq!(
        project_group(&group, DetailLevel::Standard, false),
        fields(&["first line", "second line"])
    );
    assert_eq!(
        project_group(&group, DetailLevel::Full, false),
        fields(&["first line", "second line", "third line"])
    );
}

#[test]
fn minimized_projection_cuts_each_field_to_its_first_token() {
    let group = fields(&["rsa3072 never expires", "uid alice"]);
    assert_eq!(
        project_group(&group, DetailLevel::Full, true),
        fields(&["rsa3072", "uid"])
    );
}

#[test]
fn projection_of_an_empty_group_is_empty() {
    let group: Vec<String> = Vec::new();
    assert_eq!(project_group(&group, DetailLevel::Minimum, false).len(), 0);
    assert_eq!(project_group(&group, DetailLevel::Full, true).len(), 0);
}

#[test]
fn query_matching_folds_case_and_reads_both_groups() {
    let rec = Record {
        id: "aa11".to_string(),
        fingerprint: "fpr".to_string(),
        user_id: "alice@example.org".to_string(),
        primary: fields(&["[sc--] RSA3072/AA11"]),
        secondary: fields(&["Alice <alice@example.org>"]),
        detail: DetailLevel::Minimum,
    };
    assert!(rec.matches_query(false, "rsa3072"));
    assert!(rec.matches_query(false, "ALICE"));
    assert!(!rec.matches_query(false, "bob"));
}
