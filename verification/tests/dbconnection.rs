use sql_federation::dbconnection::odbcconn;
use sql_federation::dbconnection::odbcconn::ODBCConnection;
use sql_federation::dbconnection::postgresconn;
use sql_federation::dbconnection::postgresconn::PostgresConnection;
use sql_federation::dbconnection::schema_query;
use sql_federation::dbconnection::Backend;
use sql_federation::dbconnection::DbConnection;
use sql_federation::table_reference::TableReference;

fn text(s: &str) -> String {
    s.to_string()
}

#[test]
fn adapters_own_their_connection() {
    assert_eq!(PostgresConnection::new(7u32).conn, 7);
    assert_eq!(ODBCConnection::new(text("handle")).conn, "handle");
}

#[test]
fn connection_knows_its_adapter() {
    let postgres: DbConnection<u32, u64> = DbConnection::Postgres(PostgresConnection::new(1));
    let odbc: DbConnection<u32, u64> = DbConnection::Odbc(ODBCConnection::new(2));
    assert_eq!(postgres.backend(), Backend::Postgres);
    assert_eq!(odbc.backend(), Backend::Odbc);
}

#[test]
fn narrowing_to_the_own_adapter_succeeds() {
    let postgres: DbConnection<u32, u64> = DbConnection::Postgres(PostgresConnection::new(1));
    let odbc: DbConnection<u32, u64> = DbConnection::Odbc(ODBCConnection::new(2));
    assert_eq!(postgres.as_postgres(), Some(&PostgresConnection::new(1)));
    assert_eq!(odbc.as_odbc(), Some(&ODBCConnection::new(2)));
    assert_eq!(postgres.into_postgres(), Ok(PostgresConnection::new(1)));
    assert_eq!(odbc.into_odbc(), Ok(ODBCConnection::new(2)));
}

#[test]
fn narrowing_to_another_adapter_fails() {
    let postgres: DbConnection<u32, u64> = DbConnection::Postgres(PostgresConnection::new(1));
    let odbc: DbConnection<u32, u64> = DbConnection::Odbc(ODBCConnection::new(2));
    assert_eq!(postgres.as_odbc(), None);
    assert_eq!(odbc.as_postgres(), None);
    assert_eq!(
        postgres.into_odbc(),
        Err(DbConnection::Postgres(PostgresConnection::new(1)))
    );
    assert_eq!(odbc.into_postgres(), Err(DbConnection::Odbc(ODBCConnection::new(2))));
}

#[test]
fn narrowing_for_a_change_reaches_the_connection() {
    let mut postgres: DbConnection<u32, u64> = DbConnection::Postgres(PostgresConnection::new(1));
    postgres.as_postgres_mut().unwrap().conn = 10;
    assert_eq!(postgres, DbConnection::Postgres(PostgresConnection::new(10)));
    assert_eq!(postgres.as_odbc_mut(), None);
    let mut odbc: DbConnection<u32, u64> = DbConnection::Odbc(ODBCConnection::new(2));
    odbc.as_odbc_mut().unwrap().conn = 20;
    assert_eq!(odbc, DbConnection::Odbc(ODBCConnection::new(20)));
    assert_eq!(odbc.as_postgres_mut(), None);
}

#[test]
fn every_adapter_works_asynchronously() {
    let postgres = PostgresConnection::new(1u8);
    assert_eq!(postgres.as_async(), Some(&postgres));
    let odbc = ODBCConnection::new(2u8);
    assert_eq!(odbc.as_async(), Some(&odbc));
}

#[test]
fn schema_query_samples_one_row() {
    assert_eq!(
        schema_query(&TableReference::bare(text("orders"))),
        "SELECT * FROM orders LIMIT 1"
    );
}

#[test]
fn schema_query_quotes_the_reference() {
    assert_eq!(
        schema_query(&TableReference::partial(text("Sales"), text("my orders"))),
        "SELECT * FROM \"Sales\".\"my orders\" LIMIT 1"
    );
    assert_eq!(
        schema_query(&TableReference::full(text("c"), text("s"), text("t\"x"))),
        "SELECT * FROM c.s.\"t\"\"x\" LIMIT 1"
    );
}

#[test]
fn postgres_query_outcome_keeps_the_rows() {
    assert_eq!(PostgresConnection::<()>::queried(Ok(vec![1, 2, 3])), Ok(vec![1, 2, 3]));
}

#[test]
fn postgres_query_failure_is_a_query_error() {
    assert_eq!(
        PostgresConnection::<()>::queried::<u8>(Err(text("connection reset"))),
        Err(postgresconn::Error::QueryError { source: text("connection reset") })
    );
}

#[test]
fn postgres_decoding_outcome_keeps_the_batch() {
    assert_eq!(PostgresConnection::<()>::converted(Ok("batch")), Ok("batch"));
}

#[test]
fn postgres_decoding_failure_is_a_conversion_error() {
    assert_eq!(
        PostgresConnection::<()>::converted::<u8>(Err(text("unsupported type"))),
        Err(postgresconn::Error::ConversionError { source: text("unsupported type") })
    );
}

#[test]
fn postgres_error_messages() {
    assert_eq!(
        postgresconn::Error::QueryError { source: text("syntax error") }.message(),
        "syntax error"
    );
    assert_eq!(
        postgresconn::Error::ConversionError { source: text("bad column") }.message(),
        "Failed to convert query result to Arrow: bad column"
    );
}

#[test]
fn odbc_error_messages_name_the_kind() {
    assert_eq!(
        odbcconn::Error::ArrowODBCError { source: text("x") }.message(),
        "ArrowODBCError"
    );
    assert_eq!(odbcconn::Error::ODBCAPIError { source: text("y") }.message(), "ODBCAPIError");
}

#[test]
fn parameters_are_bound_from_position_one() {
    assert_eq!(ODBCConnection::<()>::bind_position(0), 1);
    assert_eq!(ODBCConnection::<()>::bind_position(1), 2);
    assert_eq!(ODBCConnection::<()>::bind_position(41), 42);
}

#[test]
fn last_bindable_parameter() {
    assert_eq!(ODBCConnection::<()>::bind_position(65534), 65535);
}

#[test]
fn sample_gives_its_first_batch() {
    assert_eq!(ODBCConnection::<()>::sampled(Some(Ok("first"))), Ok("first"));
}

#[test]
fn sample_that_failed_to_decode_is_a_decoding_error() {
    assert_eq!(
        ODBCConnection::<()>::sampled::<u8>(Some(Err(text("truncated")))),
        Err(odbcconn::Error::ArrowODBCError { source: text("truncated") })
    );
}

#[test]
fn materialize_keeps_every_batch_in_order() {
    let results = vec![Ok(10), Ok(20), Ok(30)];
    assert_eq!(ODBCConnection::<()>::materialize(results), Ok(vec![10, 20, 30]));
}

#[test]
fn materialize_of_an_empty_result_set_is_empty_and_no_failure() {
    let results: Vec<Result<u8, String>> = vec![];
    assert_eq!(ODBCConnection::<()>::materialize(results), Ok(vec![]));
}

#[test]
fn materialize_reports_the_first_failure() {
    let results = vec![Ok(10), Err(text("first")), Ok(30), Err(text("second"))];
    assert_eq!(
        ODBCConnection::<()>::materialize(results),
        Err(odbcconn::Error::ArrowODBCError { source: text("first") })
    );
}

#[test]
fn materialize_of_a_single_failure() {
    let results: Vec<Result<u8, String>> = vec![Err(text("only"))];
    assert_eq!(
        ODBCConnection::<()>::materialize(results),
        Err(odbcconn::Error::ArrowODBCError { source: text("only") })
    );
}

#[test]
fn affected_rows_are_the_reported_count() {
    assert_eq!(ODBCConnection::<()>::affected_rows(0), Ok(0));
    assert_eq!(ODBCConnection::<()>::affected_rows(12345), Ok(12345));
    assert_eq!(ODBCConnection::<()>::affected_rows(isize::MAX), Ok(isize::MAX as u64));
}

#[test]
fn missing_row_count_is_a_driver_error() {
    let missing =
        Err(odbcconn::Error::ODBCAPIError { source: text("the driver reported no row count") });
    assert_eq!(ODBCConnection::<()>::affected_rows(-1), missing);
    assert_eq!(ODBCConnection::<()>::affected_rows(isize::MIN), missing);
}

#[test]
fn odbc_driver_outcomes() {
    assert_eq!(ODBCConnection::<()>::called(Ok(5)), Ok(5));
    assert_eq!(
        ODBCConnection::<()>::called::<u8>(Err(text("HY000"))),
        Err(odbcconn::Error::ODBCAPIError { source: text("HY000") })
    );
}

#[test]
fn odbc_reader_outcomes() {
    assert_eq!(ODBCConnection::<()>::read(Ok("reader")), Ok("reader"));
    assert_eq!(
        ODBCConnection::<()>::read::<u8>(Err(text("unsupported column"))),
        Err(odbcconn::Error::ArrowODBCError { source: text("unsupported column") })
    );
}

struct ReachablePool;

impl sql_federation::DbConnectionPool<u32, u64> for ReachablePool {
    type Connecting = std::future::Ready<Result<DbConnection<u32, u64>, String>>;

    fn connect(&self) -> Self::Connecting {
        std::future::ready(Ok(DbConnection::Postgres(PostgresConnection::new(11))))
    }
}

struct UnreachablePool;

impl sql_federation::DbConnectionPool<u32, u64> for UnreachablePool {
    type Connecting = std::future::Ready<Result<DbConnection<u32, u64>, String>>;

    fn connect(&self) -> Self::Connecting {
        std::future::ready(Err(text("connection refused")))
    }
}

#[test]
fn reachable_pool_hands_out_its_own_adapter() {
    let connection = sql_federation::DbConnectionPool::connect(&ReachablePool).into_inner().unwrap();
    assert_eq!(connection.backend(), Backend::Postgres);
    assert_eq!(connection.as_postgres(), Some(&PostgresConnection::new(11)));
}

#[test]
fn each_call_hands_out_a_connection_of_its_own() {
    let pool = ReachablePool;
    let mut first = sql_federation::DbConnectionPool::connect(&pool).into_inner().unwrap();
    let second = sql_federation::DbConnectionPool::connect(&pool).into_inner().unwrap();
    first.as_postgres_mut().unwrap().conn = 12;
    assert_eq!(first, DbConnection::Postgres(PostgresConnection::new(12)));
    assert_eq!(second, DbConnection::Postgres(PostgresConnection::new(11)));
}

#[test]
fn unreachable_pool_reports_a_failure() {
    let outcome = sql_federation::DbConnectionPool::connect(&UnreachablePool).into_inner();
    assert_eq!(outcome, Err(text("connection refused")));
}
