use backlogrs::error::{Failure, ResponseSpec, STATUS_BAD_REQUEST, STATUS_INTERNAL_SERVER_ERROR,
    STATUS_NOT_FOUND, STATUS_NO_CONTENT, STATUS_OK};
use backlogrs::pipeline::DebugIronError;
use backlogrs::models::{Entry, Login, Status};
use backlogrs::pipeline::{handle_request, Method, Request, RequestBody, Response, ResponseBody};
use backlogrs::pool::DbConnection;
use backlogrs::store::{Db, StorageFaults};

fn segs(parts: &[&str]) -> Vec<String> {
    parts.iter().map(|p| p.to_string()).collect()
}

fn get(parts: &[&str]) -> Request {
    Request { method: Method::Get, path: segs(parts), body: RequestBody::NoBody }
}

fn fresh_db() -> Db {
    let mut db = Db::new();
    db.set_clock("2015-02-21T12:00:00Z".to_string());
    db
}

fn register(db: &mut Db, pool: &mut DbConnection, name: &str) -> Response {
    let login = Login {
        id: None,
        username: name.to_string(),
        password: "secret".to_string(),
        email: format!("{}@example.net", name),
    };
    let req = Request {
        method: Method::Post,
        path: segs(&["api", "user"]),
        body: RequestBody::LoginBody(login),
    };
    handle_request(db, pool, req, StorageFaults::none())
}

fn new_entry(game_id: Option<i32>) -> Entry {
    Entry { id: None, game_id, time_played: None, last_update: None, status: None, game: None }
}

#[test]
fn prefix_gate_rejects_unprefixed_paths() {
    let mut db = fresh_db();
    let mut pool = DbConnection::new();
    let resp = handle_request(&mut db, &mut pool, get(&["user"]), StorageFaults::none());
    assert_eq!(resp.status, STATUS_NOT_FOUND);
    // the store was never touched: no login appeared and none disappears
    assert_eq!(db.logins.len(), 0);
    assert_eq!(db.entries.len(), 0);
}

#[test]
fn prefix_gate_rejects_empty_path() {
    let mut db = fresh_db();
    let mut pool = DbConnection::new();
    let resp = handle_request(&mut db, &mut pool, get(&[]), StorageFaults::none());
    assert_eq!(resp.status, STATUS_NOT_FOUND);
}

#[test]
fn prefixed_request_reaches_the_handler() {
    let mut db = fresh_db();
    let mut pool = DbConnection::new();
    let resp = handle_request(&mut db, &mut pool, get(&["api", "user"]), StorageFaults::none());
    assert_eq!(resp.status, STATUS_OK);
    match resp.body {
        ResponseBody::ManyUsers(users) => assert_eq!(users.len(), 0),
        _ => panic!("expected a user list"),
    }
}

#[test]
fn pool_is_released_on_success_and_on_failure() {
    let mut db = fresh_db();
    // one single connection: a leak on any path would starve the next request
    let mut pool = DbConnection::with_capacity(1);
    let ok = register(&mut db, &mut pool, "ada");
    assert_eq!(ok.status, STATUS_OK);
    // a failing handler must release the connection too
    let req = Request {
        method: Method::Post,
        path: segs(&["api", "user", "1", "library"]),
        body: RequestBody::EntryBody(new_entry(None)),
    };
    let bad = handle_request(&mut db, &mut pool, req, StorageFaults::none());
    assert_eq!(bad.status, STATUS_BAD_REQUEST);
    // and the pool still serves the next request
    let again = handle_request(&mut db, &mut pool, get(&["api", "user"]), StorageFaults::none());
    assert_eq!(again.status, STATUS_OK);
}

#[test]
fn exhausted_pool_is_a_server_error() {
    let mut db = fresh_db();
    let mut pool = DbConnection::with_capacity(0);
    let resp = handle_request(&mut db, &mut pool, get(&["api", "user"]), StorageFaults::none());
    assert_eq!(resp.status, STATUS_INTERNAL_SERVER_ERROR);
}

#[test]
fn unknown_route_is_not_found() {
    let mut db = fresh_db();
    let mut pool = DbConnection::new();
    let resp = handle_request(
        &mut db,
        &mut pool,
        get(&["api", "nothing", "here"]),
        StorageFaults::none(),
    );
    assert_eq!(resp.status, STATUS_NOT_FOUND);
}

#[test]
fn malformed_path_parameter_is_a_client_error() {
    let mut db = fresh_db();
    let mut pool = DbConnection::new();
    let resp = handle_request(
        &mut db,
        &mut pool,
        get(&["api", "user", "seven"]),
        StorageFaults::none(),
    );
    assert_eq!(resp.status, STATUS_BAD_REQUEST);
}

#[test]
fn missing_body_is_a_client_error() {
    let mut db = fresh_db();
    let mut pool = DbConnection::new();
    let req = Request {
        method: Method::Post,
        path: segs(&["api", "user"]),
        body: RequestBody::NoBody,
    };
    let resp = handle_request(&mut db, &mut pool, req, StorageFaults::none());
    assert_eq!(resp.status, STATUS_BAD_REQUEST);
}

#[test]
fn absent_user_is_no_content() {
    let mut db = fresh_db();
    let mut pool = DbConnection::new();
    let resp = handle_request(&mut db, &mut pool, get(&["api", "user", "5"]), StorageFaults::none());
    assert_eq!(resp.status, STATUS_NO_CONTENT);
}

#[test]
fn status_route_lists_the_enumeration() {
    let mut db = fresh_db();
    let mut pool = DbConnection::new();
    let resp = handle_request(&mut db, &mut pool, get(&["api", "status"]), StorageFaults::none());
    assert_eq!(resp.status, STATUS_OK);
    match resp.body {
        ResponseBody::Statuses(all) => {
            assert_eq!(
                all,
                vec![
                    Status::Frozen,
                    Status::CurrentlyPlaying,
                    Status::Dropped,
                    Status::PlanToPlay
                ]
            );
        },
        _ => panic!("expected the status list"),
    }
}

#[test]
fn error_interceptor_renders_the_cause() {
    let after = DebugIronError;
    let plain = after.catch(Failure {
        response: ResponseSpec { status: 404, message: None },
        cause: "Lacking api prefix".to_string(),
    });
    assert_eq!(plain.status, 404);
    match plain.body {
        ResponseBody::Message(text) => assert_eq!(text, "Lacking api prefix"),
        _ => panic!("expected a message body"),
    }
    let with_message = after.catch(Failure {
        response: ResponseSpec { status: 500, message: Some("server error".to_string()) },
        cause: "details".to_string(),
    });
    assert_eq!(with_message.status, 500);
    match with_message.body {
        ResponseBody::Message(text) => assert_eq!(text, "server error"),
        _ => panic!("expected a message body"),
    }
}

#[test]
fn end_to_end_create_then_list() {
    let mut db = fresh_db();
    let mut pool = DbConnection::new();
    // user 7 exists once seven accounts are registered
    for name in ["a", "b", "c", "d", "e", "f", "g"] {
        let resp = register(&mut db, &mut pool, name);
        assert_eq!(resp.status, STATUS_OK);
    }
    let req = Request {
        method: Method::Post,
        path: segs(&["api", "user", "7", "library"]),
        body: RequestBody::EntryBody(new_entry(Some(3))),
    };
    let resp = handle_request(&mut db, &mut pool, req, StorageFaults::none());
    assert_eq!(resp.status, STATUS_OK);
    match resp.body {
        ResponseBody::OneEntry(e) => {
            assert_eq!(e.id, Some(1));
            assert_eq!(e.game_id, Some(3));
            assert_eq!(e.status, Some(Status::PlanToPlay));
            assert_eq!(e.time_played, Some(0));
        },
        _ => panic!("expected the created entry"),
    }
    let listed = handle_request(
        &mut db,
        &mut pool,
        get(&["api", "user", "7", "library"]),
        StorageFaults::none(),
    );
    assert_eq!(listed.status, STATUS_OK);
    match listed.body {
        ResponseBody::ManyEntries(entries) => {
            assert_eq!(entries.len(), 1);
            assert_eq!(entries[0].id, Some(1));
            assert_eq!(entries[0].game_id, Some(3));
            assert_eq!(entries[0].status, Some(Status::PlanToPlay));
            assert_eq!(entries[0].time_played, Some(0));
            assert_eq!(entries[0].last_update.as_deref(), Some("2015-02-21T12:00:00Z"));
        },
        _ => panic!("expected the library listing"),
    }
    // another user's library stays empty
    let other = handle_request(
        &mut db,
        &mut pool,
        get(&["api", "user", "1", "library"]),
        StorageFaults::none(),
    );
    assert_eq!(other.status, STATUS_NO_CONTENT);
}
