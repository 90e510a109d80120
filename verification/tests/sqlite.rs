use creator_mailer::load::ReadOutcome;
use creator_mailer::record::Creator;
use creator_mailer::roster::{Effect, Message, MyApp};
use creator_mailer::save::SaveStep;
use creator_mailer::store::{SqlParam, SqlValue, Statement, StorageError};
use creator_mailer::load::decode_row;
use rusqlite::types::{FromSql, Value, ValueRef};
use rusqlite::{params_from_iter, Connection};

fn to_driver(param: &SqlParam) -> Value {
    match param {
        SqlParam::Integer(i) => Value::Integer(*i),
        SqlParam::Text(t) => Value::Text(t.clone()),
    }
}

fn from_driver(value: ValueRef<'_>) -> SqlValue {
    match value {
        ValueRef::Null => SqlValue::Null,
        ValueRef::Integer(i) => SqlValue::Integer(i),
        ValueRef::Real(_) => SqlValue::Real,
        ValueRef::Text(bytes) => match std::str::from_utf8(bytes) {
            Ok(t) => SqlValue::Text(t.to_string()),
            Err(_) => SqlValue::Blob,
        },
        ValueRef::Blob(_) => SqlValue::Blob,
    }
}

fn run(conn: &Connection, statement: &Statement) -> Result<usize, String> {
    conn.execute(statement.sql(), params_from_iter(statement.params().iter().map(to_driver)))
        .map_err(|e| e.to_string())
}

fn read_rows(conn: &Connection) -> Result<Vec<Vec<SqlValue>>, rusqlite::Error> {
    let select = Statement::select_all();
    let mut prepared = conn.prepare(select.sql())?;
    let columns = prepared.column_count();
    let mut rows = prepared.query(params_from_iter(select.params().iter().map(to_driver)))?;
    let mut out = Vec::new();
    while let Some(row) = rows.next()? {
        let mut cells = Vec::new();
        for column in 0..columns {
            cells.push(from_driver(row.get_ref(column)?));
        }
        out.push(cells);
    }
    Ok(out)
}

fn read(conn: &Connection) -> ReadOutcome {
    match read_rows(conn) {
        Ok(rows) => ReadOutcome::Rows(rows),
        Err(e) => ReadOutcome::QueryFailed(e.to_string()),
    }
}

fn save(conn: &Connection, app: &MyApp) -> (usize, Result<(), StorageError>) {
    let mut pass = app.save();
    loop {
        match pass.next_step() {
            SaveStep::Connect => pass.report(Ok(())),
            SaveStep::Execute(statement) => {
                let outcome = run(conn, &statement).map(|_| ());
                pass.report(outcome);
            }
            SaveStep::Finished(result) => return (pass.written(), result),
        }
    }
}

fn store(rows: &[(i32, &str, &str, i32)]) -> Connection {
    let conn = Connection::open_in_memory().unwrap();
    conn.execute_batch(
        "CREATE TABLE Creators (Id INTEGER PRIMARY KEY, Name TEXT, Email TEXT, Followers INTEGER)",
    )
    .unwrap();
    for (id, name, email, followers) in rows {
        conn.execute(
            "INSERT INTO Creators (Id, Name, Email, Followers) VALUES (?, ?, ?, ?)",
            (id, name, email, followers),
        )
        .unwrap();
    }
    conn
}

fn stored(conn: &Connection) -> Vec<(i32, String, String, i32)> {
    let app = MyApp::load(read(conn)).ok().unwrap();
    app.creators()
        .iter()
        .map(|c| (c.id(), c.name().to_string(), c.email().to_string(), c.followers()))
        .collect()
}

fn row(id: i32, name: &str, email: &str, followers: i32) -> (i32, String, String, i32) {
    (id, name.to_string(), email.to_string(), followers)
}

#[test]
fn load_reads_the_rows_of_the_table() {
    let conn = store(&[(1, "A", "a@x.com", 10), (2, "B", "b@x.com", 20)]);
    let app = MyApp::load(read(&conn)).ok().unwrap();
    assert_eq!(app.creators().len(), 2);
    assert_eq!(app.creators()[0].id(), 1);
    assert_eq!(app.creators()[0].name(), "A");
    assert_eq!(app.creators()[0].email(), "a@x.com");
    assert_eq!(app.creators()[0].followers(), 10);
    assert!(!app.creators()[0].selected());
    assert_eq!(app.creators()[1].id(), 2);
    assert!(!app.creators()[1].selected());
}

#[test]
fn save_after_load_leaves_the_table_as_it_was() {
    let conn = store(&[(1, "A", "a@x.com", 10)]);
    let app = MyApp::load(read(&conn)).ok().unwrap();
    assert_eq!(save(&conn, &app), (1, Ok(())));
    assert_eq!(stored(&conn), vec![row(1, "A", "a@x.com", 10)]);
}

#[test]
fn edits_are_in_the_table_after_a_save() {
    let conn = store(&[(1, "A", "a@x.com", 10)]);
    let mut app = MyApp::load(read(&conn)).ok().unwrap();
    app.name_changed(0, "B".to_string());
    app.followers_changed(0, "20");
    assert_eq!(stored(&conn), vec![row(1, "A", "a@x.com", 10)]);
    assert_eq!(save(&conn, &app), (1, Ok(())));
    assert_eq!(stored(&conn), vec![row(1, "B", "a@x.com", 20)]);
}

#[test]
fn messages_then_save_write_every_edited_row() {
    let conn = store(&[(1, "A", "a@x.com", 10), (5, "E", "e@x.com", 50), (9, "I", "i@x.com", 90)]);
    let mut app = MyApp::load(read(&conn)).ok().unwrap();
    app.update(Message::EmailChanged(1, "new@y.org".to_string()));
    app.update(Message::FollowersChanged(2, "not a number".to_string()));
    app.update(Message::NameChanged(0, "O'Neil; DROP TABLE Creators".to_string()));
    app.update(Message::NameChanged(7, "nobody".to_string()));
    assert_eq!(app.update(Message::Save), Effect::Save);
    assert_eq!(save(&conn, &app), (3, Ok(())));
    assert_eq!(
        stored(&conn),
        vec![
            row(1, "O'Neil; DROP TABLE Creators", "a@x.com", 10),
            row(5, "E", "new@y.org", 50),
            row(9, "I", "i@x.com", 0),
        ]
    );
}

#[test]
fn a_mark_changes_nothing_in_the_table() {
    let conn = store(&[(1, "A", "a@x.com", 10), (2, "B", "b@x.com", 20)]);
    let mut app = MyApp::load(read(&conn)).ok().unwrap();
    app.selection_changed(1, true);
    assert_eq!(save(&conn, &app), (2, Ok(())));
    assert_eq!(stored(&conn), vec![row(1, "A", "a@x.com", 10), row(2, "B", "b@x.com", 20)]);
    let again = MyApp::load(read(&conn)).ok().unwrap();
    assert!(!again.creators()[1].selected());
}

#[test]
fn a_failing_statement_leaves_the_earlier_rows_written() {
    let conn = store(&[(1, "A", "a@x.com", 10), (2, "B", "b@x.com", 20)]);
    let mut app = MyApp::load(read(&conn)).ok().unwrap();
    app.name_changed(0, "A2".to_string());
    app.name_changed(1, "B2".to_string());
    conn.execute_batch(
        "CREATE TRIGGER refuse BEFORE UPDATE ON Creators WHEN NEW.Id = 2 \
         BEGIN SELECT RAISE(ABORT, 'store unavailable'); END",
    )
    .unwrap();
    let (written, result) = save(&conn, &app);
    assert_eq!(written, 1);
    assert_eq!(result, Err(StorageError::Statement("store unavailable".to_string())));
    assert_eq!(stored(&conn), vec![row(1, "A2", "a@x.com", 10), row(2, "B", "b@x.com", 20)]);
    assert_eq!(app.creators()[0].name(), "A2");
    assert_eq!(app.creators()[1].name(), "B2");
}

#[test]
fn a_failing_statement_stops_the_later_ones() {
    let conn = store(&[(1, "A", "a@x.com", 10), (2, "B", "b@x.com", 20), (3, "C", "c@x.com", 30)]);
    let mut app = MyApp::load(read(&conn)).ok().unwrap();
    for i in 0..3 {
        app.followers_changed(i, "99");
    }
    conn.execute_batch(
        "CREATE TRIGGER refuse BEFORE UPDATE ON Creators WHEN NEW.Id = 2 \
         BEGIN SELECT RAISE(ABORT, 'store unavailable'); END",
    )
    .unwrap();
    let (written, result) = save(&conn, &app);
    assert_eq!(written, 1);
    assert!(matches!(result, Err(StorageError::Statement(_))));
    assert_eq!(
        stored(&conn),
        vec![row(1, "A", "a@x.com", 99), row(2, "B", "b@x.com", 20), row(3, "C", "c@x.com", 30)]
    );
}

#[test]
fn a_save_without_the_table_fails_at_the_first_statement() {
    let conn = Connection::open_in_memory().unwrap();
    let app = MyApp::new(vec![Creator::new(1, "A".to_string(), "a@x.com".to_string(), 10).unwrap()]);
    let (written, result) = save(&conn, &app);
    assert_eq!(written, 0);
    assert!(matches!(result, Err(StorageError::Statement(_))));
}

#[test]
fn a_count_that_is_text_fails_the_load() {
    let conn = store(&[(1, "A", "a@x.com", 10)]);
    conn.execute(
        "INSERT INTO Creators (Id, Name, Email, Followers) VALUES (2, 'B', 'b@x.com', 'many')",
        (),
    )
    .unwrap();
    assert_eq!(MyApp::load(read(&conn)).err(), Some(StorageError::Decode { row: 1, column: 3 }));
}

#[test]
fn a_missing_name_fails_the_load() {
    let conn = store(&[]);
    conn.execute("INSERT INTO Creators (Id, Name, Email, Followers) VALUES (1, NULL, 'a@x.com', 1)", ())
        .unwrap();
    assert_eq!(MyApp::load(read(&conn)).err(), Some(StorageError::Decode { row: 0, column: 1 }));
}

#[test]
fn a_real_count_and_a_negative_count_fail_the_load() {
    let conn = store(&[]);
    conn.execute("INSERT INTO Creators (Id, Name, Email, Followers) VALUES (1, 'A', 'a@x.com', 1.5)", ())
        .unwrap();
    assert_eq!(MyApp::load(read(&conn)).err(), Some(StorageError::Decode { row: 0, column: 3 }));
    let conn = store(&[]);
    conn.execute("INSERT INTO Creators (Id, Name, Email, Followers) VALUES (1, 'A', 'a@x.com', -4)", ())
        .unwrap();
    assert_eq!(MyApp::load(read(&conn)).err(), Some(StorageError::Decode { row: 0, column: 3 }));
}

#[test]
fn a_name_that_is_no_utf8_fails_the_load() {
    let conn = store(&[]);
    conn.execute(
        "INSERT INTO Creators (Id, Name, Email, Followers) VALUES (1, CAST(x'ff' AS TEXT), 'a@x.com', 1)",
        (),
    )
    .unwrap();
    assert_eq!(MyApp::load(read(&conn)).err(), Some(StorageError::Decode { row: 0, column: 1 }));
}

#[test]
fn insert_adds_a_row_with_a_key_of_the_store() {
    let conn = store(&[(1, "A", "a@x.com", 10)]);
    let fresh = Creator::new(0, "N".to_string(), "n@x.com".to_string(), 3).unwrap();
    assert_eq!(run(&conn, &Statement::insert(&fresh)), Ok(1));
    assert_eq!(stored(&conn), vec![row(1, "A", "a@x.com", 10), row(2, "N", "n@x.com", 3)]);
}

#[test]
fn an_update_for_a_key_that_is_gone_writes_nothing() {
    let conn = store(&[(1, "A", "a@x.com", 10)]);
    let app = MyApp::new(vec![Creator::new(8, "H".to_string(), "h@x.com".to_string(), 80).unwrap()]);
    assert_eq!(save(&conn, &app), (1, Ok(())));
    assert_eq!(stored(&conn), vec![row(1, "A", "a@x.com", 10)]);
}

#[test]
fn a_load_without_the_table_fails_with_the_text_of_the_store() {
    let conn = Connection::open_in_memory().unwrap();
    assert_eq!(
        MyApp::load(read(&conn)).err(),
        Some(StorageError::Statement("no such table: Creators".to_string()))
    );
}

#[test]
fn a_store_that_cannot_be_opened_fails_the_save() {
    let app = MyApp::new(vec![Creator::new(1, "A".to_string(), "a@x.com".to_string(), 10).unwrap()]);
    let mut pass = app.save();
    assert!(matches!(pass.next_step(), SaveStep::Connect));
    let opened = Connection::open("/nowhere/at/all/creators.db").map(|_| ()).map_err(|e| e.to_string());
    assert!(opened.is_err());
    pass.report(opened);
    assert_eq!(pass.written(), 0);
    assert!(matches!(pass.next_step(), SaveStep::Finished(Err(StorageError::Connection(_)))));
}

fn samples() -> Vec<Value> {
    vec![
        Value::Null,
        Value::Integer(0),
        Value::Integer(1),
        Value::Integer(-1),
        Value::Integer(2_147_483_647),
        Value::Integer(2_147_483_648),
        Value::Integer(-2_147_483_648),
        Value::Integer(-2_147_483_649),
        Value::Integer(i64::MAX),
        Value::Integer(i64::MIN),
        Value::Real(1.0),
        Value::Real(-0.5),
        Value::Text(String::new()),
        Value::Text("10".to_string()),
        Value::Text("Ada".to_string()),
        Value::Text("ü ✓".to_string()),
        Value::Blob(Vec::new()),
        Value::Blob(vec![49, 48]),
    ]
}

#[test]
fn a_key_fits_exactly_when_the_driver_reads_it_as_a_32_bit_integer() {
    for sample in samples() {
        let cell = ValueRef::from(&sample);
        let row = vec![from_driver(cell), SqlValue::Text(String::new()), SqlValue::Text(String::new()), SqlValue::Integer(0)];
        let ours = decode_row(&row).map(|c| c.id()).map_err(|column| column);
        match i32::column_result(cell) {
            Ok(id) => assert_eq!(ours, Ok(id), "cell {:?}", sample),
            Err(_) => assert_eq!(ours, Err(0), "cell {:?}", sample),
        }
    }
}

#[test]
fn a_name_fits_exactly_when_the_driver_reads_it_as_text() {
    for sample in samples() {
        let cell = ValueRef::from(&sample);
        let row = vec![SqlValue::Integer(1), from_driver(cell), SqlValue::Text(String::new()), SqlValue::Integer(0)];
        let ours = decode_row(&row).map(|c| c.name().to_string()).map_err(|column| column);
        match String::column_result(cell) {
            Ok(name) => assert_eq!(ours, Ok(name), "cell {:?}", sample),
            Err(_) => assert_eq!(ours, Err(1), "cell {:?}", sample),
        }
    }
    let broken = ValueRef::Text(&[0xff, 0xfe]);
    assert!(String::column_result(broken).is_err());
    let row = vec![SqlValue::Integer(1), from_driver(broken), SqlValue::Text(String::new()), SqlValue::Integer(0)];
    assert_eq!(decode_row(&row).err(), Some(1));
}

#[test]
fn a_count_fits_exactly_when_the_driver_reads_it_as_a_32_bit_integer_that_is_not_negative() {
    for sample in samples() {
        let cell = ValueRef::from(&sample);
        let row = vec![SqlValue::Integer(1), SqlValue::Text(String::new()), SqlValue::Text(String::new()), from_driver(cell)];
        let ours = decode_row(&row).map(|c| c.followers()).map_err(|column| column);
        match i32::column_result(cell) {
            Ok(count) if count >= 0 => assert_eq!(ours, Ok(count), "cell {:?}", sample),
            _ => assert_eq!(ours, Err(3), "cell {:?}", sample),
        }
    }
}

#[test]
fn parameters_reach_the_store_as_the_kinds_they_are() {
    let conn = store(&[(1, "A", "a@x.com", 10)]);
    let mut app = MyApp::load(read(&conn)).ok().unwrap();
    app.name_changed(0, "42".to_string());
    app.email_changed(0, String::new());
    assert_eq!(save(&conn, &app), (1, Ok(())));
    let kinds: (String, String, String, String) = conn
        .query_row(
            "SELECT typeof(Id), typeof(Name), typeof(Email), typeof(Followers) FROM Creators",
            (),
            |row| Ok((row.get(0)?, row.get(1)?, row.get(2)?, row.get(3)?)),
        )
        .unwrap();
    assert_eq!(kinds, ("integer".to_string(), "text".to_string(), "text".to_string(), "integer".to_string()));
    assert_eq!(stored(&conn), vec![row(1, "42", "", 10)]);
}
