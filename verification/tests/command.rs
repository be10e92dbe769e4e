use design_patterns::command::fn_trait_object;
use design_patterns::command::function_pointer;
use design_patterns::command::trait_object::{AddField, CreateTable, Schema};

#[test]
fn test_command() {
    let mut schema = Schema::default();
    let cmd = Box::new(CreateTable);

    schema.add_migration(cmd);

    let cmd = Box::new(AddField);

    schema.add_migration(cmd);

    assert_eq!(vec!["create table", "add field"], schema.execute());
    assert_eq!(vec!["remove field", "drop table"], schema.rollback());
}

#[test]
fn command_test_command() {
    let mut schema = function_pointer::Schema::default();

    schema.add_migration(
        String::from("create table"),
        String::from("drop table"),
    );
    schema.add_migration(String::from("add field"), String::from("remove field"));

    assert_eq!(vec!["create table", "add field"], schema.execute());
    assert_eq!(vec!["remove field", "drop table"], schema.rollback());
}

#[test]
fn fn_trait_object_test_command() {
    let mut schema = fn_trait_object::Schema::default();

    schema.add_migration(String::from("create table"), String::from("drop table"));
    schema.add_migration(String::from("add field"), String::from("remove field"));

    assert_eq!(vec!["create table", "add field"], schema.execute());
    assert_eq!(vec!["remove field", "drop table"], schema.rollback());
}

#[test]
fn empty_schema_yields_empty_sequences() {
    let schema = Schema::new();
    assert_eq!(schema.execute(), Vec::<String>::new());
    assert_eq!(schema.rollback(), Vec::<String>::new());

    let schema = function_pointer::Schema::new();
    assert_eq!(schema.execute(), Vec::<String>::new());
    assert_eq!(schema.rollback(), Vec::<String>::new());

    let schema = fn_trait_object::Schema::new();
    assert_eq!(schema.execute(), Vec::<String>::new());
    assert_eq!(schema.rollback(), Vec::<String>::new());
}

#[test]
fn repeated_calls_return_the_same_sequences() {
    let mut schema = Schema::new();
    schema.add_migration(Box::new(CreateTable));
    schema.add_migration(Box::new(AddField));

    let first = schema.execute();
    let second = schema.execute();
    assert_eq!(first, second);

    let first = schema.rollback();
    let second = schema.rollback();
    assert_eq!(first, second);
}

#[test]
fn representations_agree_on_equivalent_inputs() {
    let mut objects = Schema::new();
    objects.add_migration(Box::new(CreateTable));
    objects.add_migration(Box::new(AddField));

    let mut pairs = function_pointer::Schema::new();
    pairs.add_migration(String::from("create table"), String::from("drop table"));
    pairs.add_migration(String::from("add field"), String::from("remove field"));

    let mut parallel = fn_trait_object::Schema::new();
    parallel.add_migration(String::from("create table"), String::from("drop table"));
    parallel.add_migration(String::from("add field"), String::from("remove field"));

    assert_eq!(objects.execute(), pairs.execute());
    assert_eq!(objects.execute(), parallel.execute());
    assert_eq!(objects.rollback(), pairs.rollback());
    assert_eq!(objects.rollback(), parallel.rollback());
}

#[test]
fn single_migration_rolls_back_its_own_label() {
    let mut schema = Schema::new();
    schema.add_migration(Box::new(CreateTable));
    assert_eq!(vec!["create table"], schema.execute());
    assert_eq!(vec!["drop table"], schema.rollback());
}
