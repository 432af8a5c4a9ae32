use iosevka_template::command::{parse_command, usage_text, Action};

#[test]
fn missing_subcommand_is_usage() {
    let args: Vec<String> = Vec::new();
    assert!(matches!(parse_command(&args), Action::Usage));
}

#[test]
fn unrecognized_subcommand_is_usage() {
    let args = vec!["bogus".to_string()];
    assert!(matches!(parse_command(&args), Action::Usage));
}

#[test]
fn render_subcommand_routes() {
    let args = vec!["render".to_string()];
    assert!(matches!(parse_command(&args), Action::Render));
}

#[test]
fn pkglint_subcommand_routes() {
    let args = vec!["pkglint".to_string()];
    assert!(matches!(parse_command(&args), Action::Pkglint));
}

#[test]
fn makesum_subcommand_routes() {
    let args = vec!["makesum".to_string()];
    assert!(matches!(parse_command(&args), Action::Makesum));
}

#[test]
fn make_subcommand_forwards_trailing_arguments() {
    let args = vec![
        "make".to_string(),
        "VAR=1".to_string(),
        "all".to_string(),
    ];
    match parse_command(&args) {
        Action::Make(rest) => {
            assert_eq!(rest, vec!["VAR=1".to_string(), "all".to_string()]);
        }
        _ => panic!("expected the build action"),
    }
}

#[test]
fn make_subcommand_with_no_arguments() {
    let args = vec!["make".to_string()];
    match parse_command(&args) {
        Action::Make(rest) => assert!(rest.is_empty()),
        _ => panic!("expected the build action"),
    }
}

#[test]
fn usage_line_names_every_subcommand() {
    assert_eq!(
        usage_text(),
        "usage: iosevka-template (make|makesum|pkglint|render)"
    );
}
