use iosevka_template::config::load_config;
use iosevka_template::errors::ToolError;

#[test]
fn parses_single_entry_with_every_field() {
    let text = "[pkgA]\nvariant = \"x\"\nname = \"A\"\nnumber = \"1.0\"\ndescription = \"desc\"\n";
    let cfg = load_config(text).unwrap();
    assert_eq!(cfg.len(), 1);
    assert_eq!(cfg[0].key, "pkgA");
    assert_eq!(cfg[0].record.variant, "x");
    assert_eq!(cfg[0].record.name, "A");
    assert_eq!(cfg[0].record.number, Some("1.0".to_string()));
    assert_eq!(cfg[0].record.description, "desc");
}

#[test]
fn number_is_kept_as_opaque_text() {
    let text = "[p]\nvariant = \"v\"\nname = \"n\"\nnumber = \"01.20\"\ndescription = \"d\"\n";
    let cfg = load_config(text).unwrap();
    assert_eq!(cfg[0].record.number, Some("01.20".to_string()));
}

#[test]
fn number_may_be_absent() {
    let text = "[p]\nvariant = \"v\"\nname = \"n\"\ndescription = \"d\"\n";
    let cfg = load_config(text).unwrap();
    assert_eq!(cfg[0].record.number, None);
}

#[test]
fn two_entries_keep_reader_order() {
    let text = "[a]\nvariant = \"v1\"\nname = \"n1\"\ndescription = \"d1\"\n\
                [b]\nvariant = \"v2\"\nname = \"n2\"\ndescription = \"d2\"\n";
    let cfg = load_config(text).unwrap();
    assert_eq!(cfg.len(), 2);
    assert_eq!(cfg[0].key, "a");
    assert_eq!(cfg[1].key, "b");
}

#[test]
fn missing_required_field_is_malformed() {
    let text = "[p]\nvariant = \"v\"\nname = \"n\"\n";
    assert!(matches!(
        load_config(text),
        Err(ToolError::ConfigMalformed)
    ));
}

#[test]
fn wrong_field_type_is_malformed() {
    let text = "[p]\nvariant = \"v\"\nname = 3\ndescription = \"d\"\n";
    assert!(matches!(
        load_config(text),
        Err(ToolError::ConfigMalformed)
    ));
}

#[test]
fn non_string_number_is_malformed() {
    let text = "[p]\nvariant = \"v\"\nname = \"n\"\nnumber = 1.0\ndescription = \"d\"\n";
    assert!(matches!(
        load_config(text),
        Err(ToolError::ConfigMalformed)
    ));
}

#[test]
fn entry_that_is_not_a_table_is_malformed() {
    let text = "pkgA = \"x\"\n";
    assert!(matches!(
        load_config(text),
        Err(ToolError::ConfigMalformed)
    ));
}

#[test]
fn unparsable_document_is_malformed() {
    let text = "[p\nvariant=";
    assert!(matches!(
        load_config(text),
        Err(ToolError::ConfigMalformed)
    ));
}

#[test]
fn duplicate_key_is_malformed() {
    let text = "[p]\nvariant = \"v\"\nname = \"n\"\ndescription = \"d\"\n\
                [p]\nvariant = \"w\"\nname = \"m\"\ndescription = \"e\"\n";
    assert!(matches!(
        load_config(text),
        Err(ToolError::ConfigMalformed)
    ));
}

#[test]
fn extra_fields_of_any_type_are_ignored() {
    let text = "[p]\nvariant = \"v\"\nname = \"n\"\ndescription = \"d\"\nweight = 400\n";
    let cfg = load_config(text).unwrap();
    assert_eq!(cfg[0].record.variant, "v");
}
