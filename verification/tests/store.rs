use chat_relay::store::{handle_request, Database, Request, Response};

fn answer(db: &mut Database, line: &str) -> String {
    handle_request(line, db).serialize()
}

#[test]
fn get_of_a_missing_key_is_an_error() {
    let mut db = Database::new();
    assert_eq!(answer(&mut db, "GET foo"), "error: no key foo");
}

#[test]
fn set_then_get_returns_the_value() {
    let mut db = Database::new();
    assert_eq!(answer(&mut db, "SET foo bar"), "set foo = `bar`, previous: None");
    assert_eq!(answer(&mut db, "GET foo"), "foo = bar");
}

#[test]
fn set_reports_the_previous_value_in_debug_form() {
    let mut db = Database::new();
    answer(&mut db, "SET foo bar");
    assert_eq!(answer(&mut db, "SET foo baz"), "set foo = `baz`, previous: Some(\"bar\")");
    assert_eq!(answer(&mut db, "SET foo q\"x"), "set foo = `q\"x`, previous: Some(\"baz\")");
    assert_eq!(answer(&mut db, "SET foo z"), "set foo = `z`, previous: Some(\"q\\\"x\")");
}

#[test]
fn set_value_keeps_its_spaces() {
    let mut db = Database::new();
    assert_eq!(answer(&mut db, "SET k a b  c"), "set k = `a b  c`, previous: None");
    assert_eq!(answer(&mut db, "GET k"), "k = a b  c");
}

#[test]
fn del_removes_a_key_once() {
    let mut db = Database::new();
    answer(&mut db, "SET foo bar");
    assert_eq!(answer(&mut db, "DEL foo"), "deleted foo!");
    assert_eq!(answer(&mut db, "DEL foo"), "error: no key foo");
    assert_eq!(answer(&mut db, "GET foo"), "error: no key foo");
}

#[test]
fn parse_errors_carry_their_messages() {
    let mut db = Database::new();
    assert_eq!(answer(&mut db, "GET"), "error: GET must be followed by a key");
    assert_eq!(answer(&mut db, "GET a b"), "error: GET's key must not be followed by anything");
    assert_eq!(answer(&mut db, "SET"), "error: SET must be followed by a key");
    assert_eq!(answer(&mut db, "SET a"), "error: SET needs a value");
    assert_eq!(answer(&mut db, "DEL"), "error: GET must be followed by a key");
    assert_eq!(answer(&mut db, "DEL a b"), "error: DEl's key must not be followed by anything");
    assert_eq!(answer(&mut db, "PING x"), "error: unknown command: PING");
    assert_eq!(answer(&mut db, ""), "error: unknown command: ");
    assert_eq!(answer(&mut db, "get foo"), "error: unknown command: get");
}

#[test]
fn parse_accepts_empty_parts() {
    assert!(matches!(Request::parse("GET "), Ok(Request::Get { key }) if key.is_empty()));
    assert!(matches!(
        Request::parse("SET  v"),
        Ok(Request::Put { key, value }) if key.is_empty() && value == "v"
    ));
    assert!(matches!(
        Request::parse("SET k "),
        Ok(Request::Put { key, value }) if key == "k" && value.is_empty()
    ));
    assert!(matches!(Request::parse(" GET k"), Err(msg) if msg == "unknown command: "));
}

#[test]
fn parse_counts_characters_not_bytes() {
    assert!(matches!(
        Request::parse("SET clé válue ü"),
        Ok(Request::Put { key, value }) if key == "clé" && value == "válue ü"
    ));
    assert!(matches!(Request::parse("DEL clé"), Ok(Request::Del { key }) if key == "clé"));
}

#[test]
fn render_takes_the_shown_text_as_given() {
    let set = Response::Put {
        key: "k".to_string(),
        value: "v".to_string(),
        previous: Some("old".to_string()),
    };
    assert_eq!(set.render("anything"), "set k = `v`, previous: anything");
    let value = Response::Value { key: "k".to_string(), value: "v".to_string() };
    assert_eq!(value.render("ignored"), "k = v");
    assert_eq!(value.serialize(), "k = v");
    assert_eq!(Response::Del { key: "k".to_string() }.serialize(), "deleted k!");
    assert_eq!(Response::Error { msg: "m".to_string() }.serialize(), "error: m");
}

#[test]
fn database_insert_get_remove() {
    let mut db = Database::new();
    assert_eq!(db.get("a"), None);
    assert_eq!(db.insert("a".to_string(), "1".to_string()), None);
    assert_eq!(db.insert("a".to_string(), "2".to_string()), Some("1".to_string()));
    assert_eq!(db.get("a"), Some("2".to_string()));
    assert!(db.remove("a"));
    assert!(!db.remove("a"));
    assert_eq!(db.get("a"), None);
}
