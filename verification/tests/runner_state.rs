use iosevka_template::config::load_config;
use iosevka_template::errors::ToolError;
use iosevka_template::runner::{
    key_prefix, make_command_line, make_program, makesum_args, pkglint_args, pkglint_program,
    report_line, ProcessRun,
};

#[test]
fn runner_visits_keys_in_order() {
    let text = "[a]\nvariant = \"v\"\nname = \"n\"\ndescription = \"d\"\n\
                [b]\nvariant = \"w\"\nname = \"m\"\ndescription = \"e\"\n";
    let cfg = load_config(text).unwrap();
    let mut run = ProcessRun::new(&cfg);
    let (key, dir) = run.current().unwrap();
    assert_eq!(key, "a");
    assert_eq!(dir, "../a");
    run.record_exit(false);
    let (key, dir) = run.current().unwrap();
    assert_eq!(key, "b");
    assert_eq!(dir, "../b");
    run.record_exit(false);
    assert!(run.current().is_none());
}

#[test]
fn runner_continues_past_a_nonzero_exit() {
    let text = "[a]\nvariant = \"v\"\nname = \"n\"\ndescription = \"d\"\n\
                [b]\nvariant = \"w\"\nname = \"m\"\ndescription = \"e\"\n\
                [c]\nvariant = \"u\"\nname = \"o\"\ndescription = \"f\"\n";
    let cfg = load_config(text).unwrap();
    let mut run = ProcessRun::new(&cfg);
    run.record_exit(true);
    let (key, _) = run.current().unwrap();
    assert_eq!(key, "b");
    run.record_exit(true);
    let (key, _) = run.current().unwrap();
    assert_eq!(key, "c");
    run.record_exit(false);
    assert!(run.current().is_none());
}

#[test]
fn build_command_line_joins_arguments() {
    let args = vec!["VAR=1".to_string(), "all".to_string()];
    assert_eq!(make_command_line(&args), "make VAR=1 all");
}

#[test]
fn build_command_line_without_arguments() {
    let args: Vec<String> = Vec::new();
    assert_eq!(make_command_line(&args), "make ");
}

#[test]
fn status_report_line_shape() {
    let line = report_line(
        &"pkgA".to_string(),
        &"make all".to_string(),
        &"exit status: 1".to_string(),
    );
    assert_eq!(line, "pkgA: make all exited with exit status: 1");
}

#[test]
fn lint_prefix_shape() {
    assert_eq!(key_prefix(&"pkgA".to_string()), "pkgA: ");
}

#[test]
fn fixed_programs_and_arguments() {
    assert_eq!(make_program(), "make");
    assert_eq!(pkglint_program(), "pkglint");
    assert_eq!(pkglint_args(), vec!["-Call", "-Wall"]);
    assert_eq!(makesum_args(), vec!["makesum"]);
}

#[test]
fn error_descriptions_are_single_lines() {
    assert_eq!(
        ToolError::ConfigNotFound.describe(),
        "cannot read data.toml"
    );
    assert_eq!(
        ToolError::ConfigMalformed.describe(),
        "data.toml is not a valid variant table"
    );
    assert_eq!(
        ToolError::TemplateNotFound("DESCR".to_string()).describe(),
        "cannot read template DESCR"
    );
    assert_eq!(
        ToolError::TemplateSyntax("PLIST".to_string()).describe(),
        "template rejected: PLIST"
    );
    assert_eq!(
        ToolError::RenderFailed {
            key: "a".to_string(),
            file: "DESCR".to_string()
        }
        .describe(),
        "cannot render DESCR for a"
    );
    assert_eq!(
        ToolError::RenderIo("../a/DESCR".to_string()).describe(),
        "cannot write ../a/DESCR"
    );
    assert_eq!(
        ToolError::ProcessSpawn("make".to_string()).describe(),
        "cannot start make"
    );
}
