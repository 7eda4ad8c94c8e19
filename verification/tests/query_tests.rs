use warp_tui::query::{assemble_query_results, plan_query, TuiQueryPlan};

#[test]
fn empty_input_has_no_results() {
    assert!(matches!(plan_query(""), TuiQueryPlan::NoResults));
}

#[test]
fn input_is_trimmed_and_lowered() {
    match plan_query("  /VoiCe\t") {
        TuiQueryPlan::Search { query_text } => assert_eq!(query_text, "/voice"),
        TuiQueryPlan::NoResults => panic!("non-empty input must be searched"),
    }
    match plan_query("\u{3000}ÄRGER\u{a0}") {
        TuiQueryPlan::Search { query_text } => assert_eq!(query_text, "ärger"),
        TuiQueryPlan::NoResults => panic!("non-empty input must be searched"),
    }
}

#[test]
fn white_space_input_searches_for_empty_text() {
    match plan_query(" \n ") {
        TuiQueryPlan::Search { query_text } => assert_eq!(query_text, ""),
        TuiQueryPlan::NoResults => panic!("non-empty input must be searched"),
    }
}

#[test]
fn commands_come_before_skills() {
    assert_eq!(
        assemble_query_results(vec!["/help", "/voice"], Some(vec!["deploy"])),
        vec!["/help", "/voice", "deploy"]
    );
    assert_eq!(assemble_query_results(vec!["/help"], None), vec!["/help"]);
    assert_eq!(assemble_query_results(Vec::<&str>::new(), Some(vec!["deploy"])), vec!["deploy"]);
}
