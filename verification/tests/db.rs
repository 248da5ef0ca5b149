use std::sync::Arc;
use verily::db::Db;
use verily::db_error::DbError;

fn run<F: std::future::Future>(work: F) -> F::Output {
    tokio::runtime::Builder::new_current_thread().enable_all().build().unwrap().block_on(work)
}

#[test]
fn missing_handle_is_a_missing_context() {
    match Db::from_context(None) {
        Err(e) => assert_eq!(e, DbError::MissingContext),
        Ok(_) => panic!("a handle came from nowhere"),
    }
}

#[test]
fn failed_connection_is_classified() {
    let failure = welds::connections::Error::InvalidDatabaseUrl;
    let expected = failure.to_string();
    match Db::try_new(Err(failure)) {
        Err(e) => assert_eq!(e, DbError::WeldsConnection(expected)),
        Ok(_) => panic!("a handle came from a failure"),
    }
}

#[test]
fn failed_transaction_is_classified() {
    match Db::transaction(Err(welds::connections::Error::PoolError)) {
        Err(e) => assert_eq!(
            e,
            DbError::WeldsConnection("the MSSQL connection pool has a locked mutex".to_string())
        ),
        Ok(_) => panic!("a transaction came from a failure"),
    }
}

#[test]
fn published_handle_is_handed_back() {
    run(async {
        let connected = welds::connections::sqlite::connect("sqlite::memory:").await;
        let db = Db::try_new(connected).expect("an in-memory database opens");
        let pool = db.as_client().as_sqlx_pool().clone();
        let again = Db::from_context(Some(db.clone())).expect("the handle was published");
        assert!(!pool.is_closed());
        pool.close().await;
        assert!(again.as_client().as_sqlx_pool().is_closed());
        assert!(db.as_client().as_sqlx_pool().is_closed());
    });
}

#[test]
fn handle_shares_the_client_it_was_made_from() {
    run(async {
        let client = welds::connections::sqlite::connect("sqlite::memory:")
            .await
            .expect("an in-memory database opens");
        let shared = Arc::new(client);
        let db = Db::from_shared(shared.clone());
        assert!(std::ptr::eq(db.as_client(), shared.as_ref()));
        let back = db.into_shared();
        assert!(Arc::ptr_eq(&back, &shared));
    });
}

async fn open(url: &str, table: &str) -> Db {
    let db = Db::try_new(welds::connections::sqlite::connect(url).await)
        .expect("the database file opens");
    let client = db.as_client();
    welds::Client::execute(client, "PRAGMA journal_mode = WAL", &[]).await.unwrap();
    welds::Client::execute(client, &format!("DROP TABLE IF EXISTS {table}"), &[]).await.unwrap();
    welds::Client::execute(
        client,
        &format!("CREATE TABLE {table} (id INTEGER PRIMARY KEY, body TEXT NOT NULL)"),
        &[],
    )
    .await
    .unwrap();
    db
}

async fn count(db: &Db, table: &str) -> usize {
    welds::Client::fetch_rows(db.as_client(), &format!("SELECT id FROM {table}"), &[])
        .await
        .unwrap()
        .len()
}

#[test]
fn abandoned_transaction_leaves_no_partial_write() {
    run(async {
        let db = open("sqlite:/tmp/verily_abandoned.db?mode=rwc", "drafts").await;
        let (wrote, written) = tokio::sync::oneshot::channel::<()>();
        let task = {
            let db = db.clone();
            tokio::spawn(async move {
                let begun = welds::TransactStart::begin(db.as_client()).await;
                let transaction = Db::transaction(begun).expect("a transaction begins");
                welds::Client::execute(
                    &transaction,
                    "INSERT INTO drafts (id, body) VALUES (1, 'half done')",
                    &[],
                )
                .await
                .unwrap();
                wrote.send(()).unwrap();
                std::future::pending::<()>().await;
                transaction.commit().await.unwrap();
            })
        };
        written.await.unwrap();
        task.abort();
        assert!(task.await.unwrap_err().is_cancelled());
        assert_eq!(count(&db, "drafts").await, 0);
    });
}

#[test]
fn committed_transaction_is_visible() {
    run(async {
        let db = open("sqlite:/tmp/verily_committed.db?mode=rwc", "notes").await;
        let begun = welds::TransactStart::begin(db.as_client()).await;
        let transaction = Db::transaction(begun).expect("a transaction begins");
        welds::Client::execute(&transaction, "INSERT INTO notes (id, body) VALUES (1, 'a')", &[])
            .await
            .unwrap();
        transaction.commit().await.unwrap();
        assert_eq!(count(&db, "notes").await, 1);
    });
}

#[test]
fn concurrent_transactions_on_cloned_handles_both_commit() {
    run(async {
        let db = open("sqlite:/tmp/verily_concurrent.db?mode=rwc", "rows").await;
        let write = |id: u32| {
            let db = db.clone();
            tokio::spawn(async move {
                let begun = welds::TransactStart::begin(db.as_client()).await;
                let transaction = Db::transaction(begun)?;
                let sql = format!("INSERT INTO rows (id, body) VALUES ({id}, 'row {id}')");
                welds::Client::execute(&transaction, &sql, &[])
                    .await
                    .map_err(DbError::from_welds_connection_error)?;
                transaction.commit().await.map_err(DbError::from_welds_connection_error)
            })
        };
        let first = write(1);
        let second = write(2);
        assert_eq!(first.await.unwrap(), Ok(()));
        assert_eq!(second.await.unwrap(), Ok(()));
        assert_eq!(count(&db, "rows").await, 2);
    });
}
