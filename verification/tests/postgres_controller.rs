use sql_federation::data_components::mysql;
use sql_federation::data_components::mysql::MySQLTableFactory;
use sql_federation::data_components::postgres::write::Action;
use sql_federation::data_components::postgres::write::Entry;
use sql_federation::data_components::postgres::write::Stage;
use sql_federation::data_components::postgres::Error;
use sql_federation::data_components::postgres::Postgres;
use sql_federation::data_components::postgres::PostgresTableFactory;
use sql_federation::data_components::postgres::PostgresTableProviderFactory;
use sql_federation::dbconnection::odbcconn::ODBCConnection;
use sql_federation::dbconnection::postgresconn::PostgresConnection;
use sql_federation::dbconnection::DbConnection;
use sql_federation::table_reference::TableReference;

fn text(s: &str) -> String {
    s.to_string()
}

fn controller(name: &str) -> Postgres<u8> {
    Postgres::new(text(name), 0)
}

#[test]
fn controller_keeps_its_name_and_pool() {
    let postgres = Postgres::new(text("orders"), 42u8);
    assert_eq!(postgres.table_name(), "orders");
    assert_eq!(*postgres.pool(), 42);
}

#[test]
fn existence_check_statement() {
    assert_eq!(
        controller("orders").table_exists_query(),
        "SELECT EXISTS (SELECT 1 FROM information_schema.tables WHERE table_name = 'orders')"
    );
}

#[test]
fn existence_check_takes_the_name_as_it_is() {
    assert_eq!(
        controller("My Orders").table_exists_query(),
        "SELECT EXISTS (SELECT 1 FROM information_schema.tables WHERE table_name = 'My Orders')"
    );
    assert_eq!(
        controller("").table_exists_query(),
        "SELECT EXISTS (SELECT 1 FROM information_schema.tables WHERE table_name = '')"
    );
}

#[test]
fn table_exists_as_the_backend_answers() {
    assert_eq!(Postgres::<u8>::table_exists(Ok(true)), Ok(true));
    assert_eq!(Postgres::<u8>::table_exists(Ok(false)), Ok(false));
}

#[test]
fn failed_existence_check_is_no_answer() {
    assert_eq!(
        Postgres::<u8>::table_exists(Err(text("connection lost"))),
        Err(Error::DbConnectionError { source: text("connection lost") })
    );
}

#[test]
fn delete_all_statement() {
    assert_eq!(controller("orders").delete_all_table_data_statement(), "DELETE FROM \"orders\"");
}

#[test]
fn delete_from_statement_counts_what_it_deletes() {
    assert_eq!(
        controller("orders").delete_from_query("id > 10"),
        "WITH deleted AS (DELETE FROM \"orders\" WHERE id > 10 RETURNING *) SELECT COUNT(*) FROM deleted"
    );
}

#[test]
fn delete_from_statement_takes_the_predicate_as_it_is() {
    assert_eq!(
        controller("t").delete_from_query("1=1; DROP TABLE t"),
        "WITH deleted AS (DELETE FROM \"t\" WHERE 1=1; DROP TABLE t RETURNING *) SELECT COUNT(*) FROM deleted"
    );
    assert_eq!(
        controller("t").delete_from_query(""),
        "WITH deleted AS (DELETE FROM \"t\" WHERE  RETURNING *) SELECT COUNT(*) FROM deleted"
    );
}

#[test]
fn delete_from_returns_the_count_of_deleted_rows() {
    assert_eq!(Postgres::<u8>::delete_from(Ok(0)), Ok(0));
    assert_eq!(Postgres::<u8>::delete_from(Ok(3)), Ok(3));
    assert_eq!(Postgres::<u8>::delete_from(Ok(i64::MAX)), Ok(i64::MAX as u64));
}

#[test]
fn delete_from_takes_no_negative_count() {
    let refused = Err(Error::UnableToDeleteData {
        source: text("the backend counted a negative number of deleted rows"),
    });
    assert_eq!(Postgres::<u8>::delete_from(Ok(-1)), refused);
    assert_eq!(Postgres::<u8>::delete_from(Ok(-2)), refused);
    assert_eq!(Postgres::<u8>::delete_from(Ok(i64::MIN)), refused);
}

#[test]
fn delete_from_failure_is_a_deletion_error() {
    assert_eq!(
        Postgres::<u8>::delete_from(Err(text("column \"idd\" does not exist"))),
        Err(Error::UnableToDeleteData { source: text("column \"idd\" does not exist") })
    );
}

#[test]
fn where_clause_outcomes() {
    assert_eq!(Postgres::<u8>::where_clause(Ok(text("id = 1"))), Ok(text("id = 1")));
    assert_eq!(
        Postgres::<u8>::where_clause(Err(text("unsupported expression"))),
        Err(Error::UnableToGenerateSQL { source: text("unsupported expression") })
    );
}

#[test]
fn delete_all_outcomes() {
    assert_eq!(Postgres::<u8>::delete_all_table_data(Ok(12)), Ok(()));
    assert_eq!(
        Postgres::<u8>::delete_all_table_data(Err(text("permission denied"))),
        Err(Error::UnableToDeleteAllTableData { source: text("permission denied") })
    );
}

#[test]
fn insert_batch_outcomes() {
    assert_eq!(Postgres::<u8>::insert_batch(Ok(100)), Ok(()));
    assert_eq!(
        Postgres::<u8>::insert_batch(Err(text("duplicate key"))),
        Err(Error::UnableToInsertArrowBatch { source: text("duplicate key") })
    );
}

#[test]
fn create_table_outcomes() {
    assert_eq!(Postgres::<u8>::create_table(Ok(0)), Ok(()));
    assert_eq!(
        Postgres::<u8>::create_table(Err(text("relation already exists"))),
        Err(Error::UnableToCreatePostgresTable { source: text("relation already exists") })
    );
}

#[test]
fn controller_recovers_its_own_adapter() {
    let mut pooled: DbConnection<u32, u64> = DbConnection::Postgres(PostgresConnection::new(5));
    let adapter = Postgres::<u8>::postgres_conn(&mut pooled).unwrap();
    assert_eq!(adapter.conn, 5);
    adapter.conn = 6;
    assert_eq!(pooled, DbConnection::Postgres(PostgresConnection::new(6)));
}

#[test]
fn controller_refuses_a_foreign_adapter() {
    let mut pooled: DbConnection<u32, u64> = DbConnection::Odbc(ODBCConnection::new(5));
    assert_eq!(
        Postgres::<u8>::postgres_conn(&mut pooled),
        Err(Error::UnableToDowncastDbConnection {})
    );
    assert_eq!(pooled, DbConnection::Odbc(ODBCConnection::new(5)));
}

#[test]
fn controller_opens_a_write_session() {
    let (session, action) = controller("orders").connect(2);
    assert_eq!(action, Action::Connect);
    assert_eq!(session.entry, Entry::Write);
    assert_eq!(session.stage, Stage::Connecting);
    assert_eq!(session.table_name, "orders");
    assert_eq!(session.pending, 2);
    assert_eq!(session.rows, 0);
}

#[test]
fn factory_keeps_its_pool() {
    assert_eq!(PostgresTableFactory::new(9u8).pool, 9);
    assert_eq!(MySQLTableFactory::new(text("pool")).pool, "pool");
}

#[test]
fn factory_names_the_controller_by_the_plain_reference() {
    let reference = TableReference::partial(text("Sales"), text("orders"));
    let postgres = PostgresTableFactory::controller(&reference, 3u8);
    assert_eq!(postgres.table_name(), "Sales.orders");
    assert_eq!(*postgres.pool(), 3);
    let bare = PostgresTableFactory::controller(&TableReference::bare(text("orders")), 4u8);
    assert_eq!(bare.table_name(), "orders");
}

#[test]
fn read_write_handle_joins_the_read_handle_and_a_controller() {
    let reference = TableReference::partial(text("Sales"), text("orders"));
    let (read, postgres) =
        PostgresTableFactory::table_provider::<&str, String>(&reference, 7u8, Ok("table"))
            .unwrap();
    assert_eq!(read, "table");
    assert_eq!(postgres.table_name(), "Sales.orders");
    assert_eq!(*postgres.pool(), 7);
}

#[test]
fn read_handle_failure_is_handed_on_as_it_came() {
    let reference = TableReference::bare(text("orders"));
    let failed = PostgresTableFactory::table_provider::<u8, String>(
        &reference,
        7u8,
        Err(text("no such table")),
    );
    assert_eq!(failed.err(), Some(text("no such table")));
    let failed = PostgresTableFactory::table_provider::<u8, (u8, bool)>(&reference, 7u8, Err((3, true)));
    assert_eq!(failed.err(), Some((3, true)));
}

#[test]
fn mysql_factory_reports_the_table_construct() {
    assert_eq!(MySQLTableFactory::<u8>::table_provider(Ok("table")), Ok("table"));
    assert_eq!(
        MySQLTableFactory::<u8>::table_provider::<u8>(Err(text("no such table"))),
        Err(mysql::Error::UnableToConstructSQLTable { source: text("no such table") })
    );
}

#[test]
fn provider_factory_opens_a_creation_session() {
    let (session, action) = PostgresTableProviderFactory::new().create(text("orders"));
    assert_eq!(action, Action::BuildPool);
    assert_eq!(session.entry, Entry::Create);
    assert_eq!(session.stage, Stage::BuildingPool);
    assert_eq!(session.table_name, "orders");
    assert_eq!(session.pending, 1);
    let (same, _) = PostgresTableProviderFactory::default().create(text("orders"));
    assert_eq!(same, session);
}

#[test]
fn created_table_is_read_under_its_bare_name() {
    assert_eq!(
        PostgresTableProviderFactory::created(text("My.Orders")),
        TableReference::Bare { table: text("My.Orders") }
    );
}

#[test]
fn write_back_error_messages() {
    let source = || text("boom");
    assert_eq!(
        Error::DbConnectionError { source: source() }.message(),
        "DbConnectionError: boom"
    );
    assert_eq!(
        Error::UnableToCreatePostgresConnectionPool { source: source() }.message(),
        "Unable to create Postgres connection pool: boom"
    );
    assert_eq!(
        Error::UnableToDowncastDbConnection {}.message(),
        "Unable to downcast DbConnection to PostgresConnection"
    );
    assert_eq!(
        Error::UnableToBeginTransaction { source: source() }.message(),
        "Unable to begin Postgres transaction: boom"
    );
    assert_eq!(
        Error::UnableToCreatePostgresTable { source: source() }.message(),
        "Unable to create the Postgres table: boom"
    );
    assert_eq!(
        Error::UnableToCommitPostgresTransaction { source: source() }.message(),
        "Unable to commit the Postgres transaction: boom"
    );
    assert_eq!(
        Error::UnableToConstructSqlTable { source: source() }.message(),
        "Unable to construct the DataFusion SQL Table Provider for Postgres: boom"
    );
    assert_eq!(
        Error::UnableToGenerateSQL { source: source() }.message(),
        "Unable to generate SQL: boom"
    );
    assert_eq!(
        Error::UnableToDeleteAllTableData { source: source() }.message(),
        "Unable to delete all data from the Postgres table: boom"
    );
    assert_eq!(
        Error::UnableToDeleteData { source: source() }.message(),
        "Unable to delete data from the Postgres table: boom"
    );
    assert_eq!(
        Error::UnableToInsertArrowBatch { source: source() }.message(),
        "Unable to insert Arrow batch to Postgres table: boom"
    );
    assert_eq!(
        Error::TableDoesntExist { table_name: text("orders") }.message(),
        "The table 'orders' doesn't exist in the Postgres server"
    );
}

#[test]
fn mysql_error_message() {
    assert_eq!(
        mysql::Error::UnableToConstructSQLTable { source: text("boom") }.message(),
        "Unable to construct SQL table: boom"
    );
}
