use std::sync::mpsc::channel;
use std::sync::{Arc, Mutex};
use std::time::Duration;

use lancedb_bridge::bridge::{Action, Awaitable, Event};
use lancedb_bridge::connection::{Connection, Operation};
use lancedb_bridge::error::{BridgeError, ErrorKind, NativeError};
use lancedb_bridge::mode::CreateMode;
use lancedb_bridge::request::{
    connect, CreateTableBuilder, DropTable, OpenTableBuilder, TableNamesBuilder,
};
use lancedb_bridge::table::Table;

/// A stand-in for the database engine: a catalogue of table names with
/// their schemas, kept in memory.
struct Engine {
    uri: String,
    tables: Mutex<Vec<(String, String)>>,
}

impl Engine {
    fn open(uri: &str) -> Engine {
        Engine { uri: uri.to_string(), tables: Mutex::new(Vec::new()) }
    }

    fn create(&self, request: CreateTableBuilder<String>) -> Result<String, NativeError> {
        let mut tables = self.tables.lock().unwrap();
        let found = tables.iter().position(|(name, _)| *name == request.name);
        match (found, request.mode) {
            (Some(_), CreateMode::Create) => Err(NativeError::Engine(format!(
                "Table '{}' already exists",
                request.name
            ))),
            (Some(at), CreateMode::Overwrite) => {
                tables[at].1 = request.payload;
                Ok(request.name)
            }
            (Some(_), CreateMode::ExistOk) => Ok(request.name),
            (None, _) => {
                tables.push((request.name.clone(), request.payload));
                Ok(request.name)
            }
        }
    }

    fn open_table(&self, request: OpenTableBuilder) -> Result<String, NativeError> {
        let tables = self.tables.lock().unwrap();
        if tables.iter().any(|(name, _)| *name == request.name) {
            Ok(request.name)
        } else {
            Err(NativeError::Engine(format!("Table '{}' was not found", request.name)))
        }
    }

    fn drop_table(&self, request: DropTable) -> Result<(), NativeError> {
        let mut tables = self.tables.lock().unwrap();
        match tables.iter().position(|(name, _)| *name == request.name) {
            Some(at) => {
                tables.remove(at);
                Ok(())
            }
            None => Err(NativeError::Engine(format!("Table '{}' was not found", request.name))),
        }
    }

    fn table_names(&self, request: TableNamesBuilder) -> Result<Vec<String>, NativeError> {
        let tables = self.tables.lock().unwrap();
        let mut names: Vec<String> = tables.iter().map(|(name, _)| name.clone()).collect();
        names.sort();
        if let Some(after) = request.start_after {
            names.retain(|name| *name > after);
        }
        if let Some(limit) = request.limit {
            names.truncate(limit as usize);
        }
        Ok(names)
    }
}

/// Runs an outcome through an awaitable as the bridge does: the worker
/// reports, the host gets its turn, and the awaitable is settled.
fn await_outcome<T>(outcome: Result<T, NativeError>) -> Result<T, BridgeError> {
    let awaitable = Awaitable::new();
    let (awaitable, action) = awaitable.step(Event::Finished(outcome));
    assert!(matches!(action, Action::PostToHost));
    let (awaitable, action) = awaitable.step(Event::HostTurn);
    assert!(awaitable.is_settled());
    match action {
        Action::Resolve(value) => Ok(value),
        Action::Reject(error) => Err(error),
        _ => panic!("the host turn did not settle the awaitable"),
    }
}

fn create_empty(
    conn: &Connection<Engine>,
    name: &str,
    mode: &str,
    schema: &str,
) -> Result<Table<String>, BridgeError> {
    let op = conn.create_empty_table(name.to_string(), mode, || Ok(schema.to_string()), None)?;
    let Operation { resource, request } = op;
    await_outcome(resource.create(request)).map(Table::new)
}

fn open(conn: &Connection<Engine>, name: &str) -> Result<Table<String>, BridgeError> {
    let Operation { resource, request } = conn.open_table(name.to_string(), None, None)?;
    await_outcome(resource.open_table(request)).map(Table::new)
}

fn names(conn: &Connection<Engine>) -> Result<Vec<String>, BridgeError> {
    let Operation { resource, request } = conn.table_names(None, None)?;
    await_outcome(resource.table_names(request))
}

fn drop_table(conn: &Connection<Engine>, name: &str) -> Result<(), BridgeError> {
    let Operation { resource, request } = conn.drop_table(name.to_string())?;
    await_outcome(resource.drop_table(request))
}

fn connect_to(uri: &str) -> Connection<Engine> {
    let settings = connect(uri.to_string(), None, None, None, None, None);
    let engine = await_outcome(Ok(Engine::open(&settings.uri))).unwrap();
    Connection::new(engine)
}

#[test]
fn create_open_list_drop() {
    let conn = connect_to("mem://test");
    assert_eq!(conn.get_inner().unwrap().uri, "mem://test");
    let created = create_empty(&conn, "t", "create", "id: int64").unwrap();
    assert!(created.is_open());
    let opened = open(&conn, "t").unwrap();
    assert_eq!(**opened.get_inner().unwrap(), "t");
    assert_eq!(names(&conn).unwrap(), vec!["t".to_string()]);
    drop_table(&conn, "t").unwrap();
    let err = open(&conn, "t").unwrap_err();
    assert_eq!(err.kind, ErrorKind::ExecutionFailure);
    assert_eq!(err.message, "Table 't' was not found");
    assert!(err.message.contains("not found"));
}

#[test]
fn exist_ok_twice_succeeds_twice() {
    let conn = connect_to("mem://test");
    let first = create_empty(&conn, "t", "exist_ok", "id: int64").unwrap();
    let second = create_empty(&conn, "t", "exist_ok", "id: int64").unwrap();
    assert!(first.is_open());
    assert!(second.is_open());
    assert_eq!(**first.get_inner().unwrap(), "t");
    assert_eq!(**second.get_inner().unwrap(), "t");
    assert_eq!(names(&conn).unwrap(), vec!["t".to_string()]);
}

#[test]
fn create_twice_fails_with_a_conflict() {
    let conn = connect_to("mem://test");
    create_empty(&conn, "t", "create", "id: int64").unwrap();
    let err = create_empty(&conn, "t", "create", "id: int64").unwrap_err();
    assert_eq!(
        err,
        BridgeError {
            kind: ErrorKind::ExecutionFailure,
            message: "Table 't' already exists".to_string(),
        }
    );
    assert_eq!(names(&conn).unwrap(), vec!["t".to_string()]);
}

#[test]
fn overwrite_replaces_an_existing_table() {
    let conn = connect_to("mem://test");
    create_empty(&conn, "t", "create", "id: int64").unwrap();
    create_empty(&conn, "t", "overwrite", "id: utf8").unwrap();
    let engine = conn.get_inner().unwrap();
    assert_eq!(
        *engine.tables.lock().unwrap(),
        vec![("t".to_string(), "id: utf8".to_string())]
    );
}

#[test]
fn invalid_mode_leaves_the_engine_untouched() {
    let conn = connect_to("mem://test");
    let err = create_empty(&conn, "t", "upsert", "id: int64").unwrap_err();
    assert_eq!(
        err,
        BridgeError { kind: ErrorKind::InvalidArgument, message: "Invalid mode upsert".to_string() }
    );
    assert_eq!(names(&conn).unwrap(), Vec::<String>::new());
    assert_eq!(Arc::strong_count(conn.get_inner().unwrap()), 1);
}

#[test]
fn closed_connection_schedules_nothing() {
    let mut conn = connect_to("mem://test");
    create_empty(&conn, "t", "create", "id: int64").unwrap();
    let engine = Arc::clone(conn.get_inner().unwrap());
    conn.close();
    let err = names(&conn).unwrap_err();
    assert_eq!(
        err,
        BridgeError { kind: ErrorKind::ClosedHandle, message: "Connection is closed".to_string() }
    );
    // No operation holds the engine: the only reference left is ours.
    assert_eq!(Arc::strong_count(&engine), 1);
    assert_eq!(engine.tables.lock().unwrap().len(), 1);
}

#[test]
fn table_handle_survives_the_connection() {
    let mut conn = connect_to("mem://test");
    let table = create_empty(&conn, "t", "create", "id: int64").unwrap();
    conn.close();
    assert!(table.is_open());
    assert_eq!(**table.get_inner().unwrap(), "t");
}

#[test]
fn concurrent_table_names_settle_once_each() {
    let count: usize = 24;
    let conn = connect_to("mem://test");
    create_empty(&conn, "a", "create", "id: int64").unwrap();
    create_empty(&conn, "b", "create", "id: int64").unwrap();
    create_empty(&conn, "c", "create", "id: int64").unwrap();

    let runtime = tokio::runtime::Builder::new_multi_thread()
        .worker_threads(4)
        .enable_time()
        .build()
        .unwrap();
    let (to_host, host_queue) = channel();
    let mut awaitables: Vec<Option<Awaitable<Vec<String>>>> = Vec::new();
    for ticket in 0..count {
        let Operation { resource, request } =
            conn.table_names(None, Some((ticket % 4) as u32)).unwrap();
        awaitables.push(Some(Awaitable::new()));
        let to_host = to_host.clone();
        runtime.spawn(async move {
            // Later tickets finish first.
            tokio::time::sleep(Duration::from_millis(((count - ticket) * 3) as u64)).await;
            let outcome = resource.table_names(request);
            to_host.send((ticket, outcome)).unwrap();
        });
    }
    drop(to_host);

    let mut settled: Vec<Vec<Vec<String>>> = (0..count).map(|_| Vec::new()).collect();
    let mut order = Vec::new();
    for (ticket, outcome) in host_queue {
        order.push(ticket);
        let awaitable = awaitables[ticket].take().unwrap();
        let (awaitable, action) = awaitable.step(Event::Finished(outcome));
        assert_eq!(action, Action::PostToHost);
        let (awaitable, action) = awaitable.step(Event::HostTurn);
        match action {
            Action::Resolve(names) => settled[ticket].push(names),
            other => panic!("ticket {} was answered by {:?}", ticket, other),
        }
        // A further turn must not settle again.
        let (awaitable, action) = awaitable.step(Event::HostTurn);
        assert_eq!(action, Action::Nothing);
        assert!(awaitable.is_settled());
        awaitables[ticket] = Some(awaitable);
    }

    assert_eq!(order.len(), count);
    let all = vec!["a".to_string(), "b".to_string(), "c".to_string()];
    for ticket in 0..count {
        assert_eq!(settled[ticket].len(), 1);
        assert_eq!(settled[ticket][0], all[..ticket % 4].to_vec());
    }
    assert!(conn.is_open());
}

#[test]
fn concurrent_operations_keep_their_own_outcomes() {
    let conn = connect_to("mem://test");
    create_empty(&conn, "t", "create", "id: int64").unwrap();
    let runtime = tokio::runtime::Builder::new_multi_thread()
        .worker_threads(2)
        .enable_time()
        .build()
        .unwrap();
    let (to_host, host_queue) = channel();

    let found = conn.open_table("t".to_string(), None, None).unwrap();
    let missing = conn.open_table("u".to_string(), None, None).unwrap();
    let mut awaitables = vec![Some(Awaitable::new()), Some(Awaitable::new())];
    for (ticket, op, delay) in [(0usize, found, 30u64), (1usize, missing, 1u64)] {
        let to_host = to_host.clone();
        runtime.spawn(async move {
            tokio::time::sleep(Duration::from_millis(delay)).await;
            let Operation { resource, request } = op;
            to_host.send((ticket, resource.open_table(request))).unwrap();
        });
    }
    drop(to_host);

    let mut results: Vec<Option<Result<String, BridgeError>>> = vec![None, None];
    for (ticket, outcome) in host_queue {
        let awaitable = awaitables[ticket].take().unwrap();
        let (awaitable, _) = awaitable.step(Event::Finished(outcome));
        let (_, action) = awaitable.step(Event::HostTurn);
        assert!(results[ticket].is_none());
        results[ticket] = Some(match action {
            Action::Resolve(name) => Ok(name),
            Action::Reject(error) => Err(error),
            other => panic!("ticket {} was answered by {:?}", ticket, other),
        });
    }
    assert_eq!(results[0], Some(Ok("t".to_string())));
    assert_eq!(
        results[1],
        Some(Err(BridgeError {
            kind: ErrorKind::ExecutionFailure,
            message: "Table 'u' was not found".to_string(),
        }))
    );
}
