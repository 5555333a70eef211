use chat_gpt_lib_rs::models::{Model, Role};
use std::str::FromStr;

#[test]
fn test_from_str() {
    let input = "gpt-3.5-turbo";
    let model: Result<Model, ()> = Model::from_str(input);
    assert!(model.is_ok(), "Failed to parse the model name");
    assert_eq!(model.unwrap(), Model::Gpt3_5Turbo);
}

#[test]
fn test_from_str_invalid() {
    let input = "invalid-model";
    let model: Result<Model, ()> = Model::from_str(input);
    assert!(model.is_err(), "Parsed an invalid model name");
}

#[test]
fn test_display() {
    let model = Model::Gpt3_5Turbo;
    let model_str = model.to_string();
    assert_eq!(model_str, "gpt-3.5-turbo");
}

#[test]
fn parse_agrees_with_from_str() {
    assert_eq!(Model::parse("gpt-3.5-turbo"), Ok(Model::Gpt3_5Turbo));
    assert_eq!(Model::parse("gpt-3.5-turbo "), Err(()));
    assert_eq!(Model::parse(""), Err(()));
}

#[test]
fn roles_are_distinct() {
    assert_ne!(Role::User, Role::System);
    assert_ne!(Role::User, Role::Assistant);
}
