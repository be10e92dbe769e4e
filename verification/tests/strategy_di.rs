use design_patterns::strategy_di;

#[test]
fn test_strategy_di() {
    let mysql_db = strategy_di::MySQLDatabase;
    let addition = strategy_di::AdditionStrategy;
    let data_service = strategy_di::DataService::new(mysql_db);
    let context = strategy_di::Context::new(addition, data_service);

    assert_eq!(context.execute(2, 3), "MySQL: SELECT 5;");

    let postgres_db = strategy_di::PostgresDatabase;
    let subtraction = strategy_di::SubtractionStrategy;
    let data_service = strategy_di::DataService::new(postgres_db);
    let context = strategy_di::Context::new(subtraction, data_service);

    assert_eq!(context.execute(10, 3), "Postgres: SELECT 7;");
}

#[test]
fn negative_result_is_rendered_with_sign() {
    let context = strategy_di::Context::new(
        strategy_di::SubtractionStrategy,
        strategy_di::DataService::new(strategy_di::MySQLDatabase),
    );

    assert_eq!(context.execute(3, 10), "MySQL: SELECT -7;");
}

#[test]
fn zero_result_is_rendered_as_zero() {
    let context = strategy_di::Context::new(
        strategy_di::AdditionStrategy,
        strategy_di::DataService::new(strategy_di::PostgresDatabase),
    );

    assert_eq!(context.execute(0, 0), "Postgres: SELECT 0;");
}
