use backlogrs::error::{STATUS_INTERNAL_SERVER_ERROR, STATUS_NOT_FOUND};
use backlogrs::handlers::{get_entry, get_game_by_id, get_games, get_library, get_user_by_id,
    get_users, post_entry, post_login};
use backlogrs::models::{Entry, Login, Status};
use backlogrs::pool::{DbConnection, PooledConn};
use backlogrs::store::{Db, StorageFaults};

fn setup() -> (Db, DbConnection, PooledConn) {
    let mut db = Db::new();
    db.set_clock("2015-02-21T12:00:00Z".to_string());
    let mut pool = DbConnection::new();
    let conn = pool.checkout().expect("a fresh pool has free connections");
    (db, pool, conn)
}

fn login(name: &str) -> Login {
    Login {
        id: None,
        username: name.to_string(),
        password: "secret".to_string(),
        email: format!("{}@example.net", name),
    }
}

fn create_input(game_id: i32, status: Option<Status>, time_played: Option<u32>) -> Entry {
    Entry { id: None, game_id: Some(game_id), time_played, last_update: None, status, game: None }
}

#[test]
fn create_defaults_status_and_time() {
    let (mut db, _pool, conn) = setup();
    post_login(&mut db, &conn, &login("ada")).unwrap();
    let made = post_entry(&mut db, &conn, 1, &create_input(3, None, None), StorageFaults::none())
        .expect("the create path succeeds for an existing user");
    assert_eq!(made.id, Some(1));
    assert_eq!(made.game_id, Some(3));
    assert_eq!(made.status, Some(Status::PlanToPlay));
    assert_eq!(made.time_played, Some(0));
    assert_eq!(made.last_update.as_deref(), Some("2015-02-21T12:00:00Z"));
}

#[test]
fn create_requires_a_game_id() {
    let (mut db, _pool, conn) = setup();
    post_login(&mut db, &conn, &login("ada")).unwrap();
    let input = Entry {
        id: None,
        game_id: None,
        time_played: None,
        last_update: None,
        status: None,
        game: None,
    };
    let failure = post_entry(&mut db, &conn, 1, &input, StorageFaults::none())
        .expect_err("a create without a game id is a client error");
    assert_eq!(failure.response.status, 400);
    assert_eq!(db.entries.len(), 0);
}

#[test]
fn create_for_unknown_user_fails_whole() {
    let (mut db, _pool, conn) = setup();
    let failure = post_entry(&mut db, &conn, 9, &create_input(3, None, None), StorageFaults::none())
        .expect_err("the library row would reference an unknown user");
    assert_eq!(failure.response.status, STATUS_INTERNAL_SERVER_ERROR);
    assert_eq!(db.entries.len(), 0);
    assert_eq!(db.libraries.len(), 0);
}

#[test]
fn create_is_atomic_under_library_insert_failure() {
    let (mut db, _pool, conn) = setup();
    post_login(&mut db, &conn, &login("ada")).unwrap();
    let faults = StorageFaults {
        entry_insert: false,
        library_insert: true,
        update: false,
        commit: false,
    };
    // however often the scenario is retried, no orphaned entry appears
    for _ in 0..3 {
        let failure = post_entry(&mut db, &conn, 1, &create_input(3, None, None), faults)
            .expect_err("a failing library insert aborts the transaction");
        assert_eq!(failure.response.status, STATUS_INTERNAL_SERVER_ERROR);
        assert_eq!(db.entries.len(), 0);
        assert_eq!(db.libraries.len(), 0);
        assert!(get_library(&db, &conn, 1).is_empty());
    }
    // without the fault the same request goes through whole
    let made = post_entry(&mut db, &conn, 1, &create_input(3, None, None), StorageFaults::none())
        .expect("the retry without the fault succeeds");
    assert_eq!(db.entries.len(), 1);
    assert_eq!(db.libraries.len(), 1);
    assert_eq!(made.id, Some(1));
}

#[test]
fn create_is_atomic_under_commit_failure() {
    let (mut db, _pool, conn) = setup();
    post_login(&mut db, &conn, &login("ada")).unwrap();
    let faults = StorageFaults {
        entry_insert: false,
        library_insert: false,
        update: false,
        commit: true,
    };
    let failure = post_entry(&mut db, &conn, 1, &create_input(3, None, None), faults)
        .expect_err("an uncommitted transaction leaves nothing behind");
    assert_eq!(failure.response.status, STATUS_INTERNAL_SERVER_ERROR);
    assert_eq!(db.entries.len(), 0);
    assert_eq!(db.libraries.len(), 0);
}

#[test]
fn update_merges_unset_fields() {
    let (mut db, _pool, conn) = setup();
    post_login(&mut db, &conn, &login("ada")).unwrap();
    // stored: status Dropped, 12.50 hours of play, kept as hundredths
    post_entry(
        &mut db,
        &conn,
        1,
        &create_input(3, Some(Status::Dropped), Some(1250)),
        StorageFaults::none(),
    )
    .unwrap();
    // the update sets only the play time; the status must survive
    let update = Entry {
        id: Some(1),
        game_id: None,
        time_played: Some(2000),
        last_update: None,
        status: None,
        game: None,
    };
    post_entry(&mut db, &conn, 1, &update, StorageFaults::none()).unwrap();
    let stored = get_entry(&db, &conn, 1, 1).expect("the entry is still owned");
    assert_eq!(stored.status, Some(Status::Dropped));
    assert_eq!(stored.time_played, Some(2000));
    assert_eq!(stored.game_id, Some(3));
    assert_eq!(stored.last_update.as_deref(), Some("2015-02-21T12:00:00Z"));
}

#[test]
fn update_overrides_set_fields() {
    let (mut db, _pool, conn) = setup();
    post_login(&mut db, &conn, &login("ada")).unwrap();
    post_entry(
        &mut db,
        &conn,
        1,
        &create_input(3, Some(Status::Frozen), Some(100)),
        StorageFaults::none(),
    )
    .unwrap();
    let update = Entry {
        id: Some(1),
        game_id: None,
        time_played: None,
        last_update: None,
        status: Some(Status::CurrentlyPlaying),
        game: None,
    };
    post_entry(&mut db, &conn, 1, &update, StorageFaults::none()).unwrap();
    let stored = get_entry(&db, &conn, 1, 1).unwrap();
    assert_eq!(stored.status, Some(Status::CurrentlyPlaying));
    assert_eq!(stored.time_played, Some(100));
}

#[test]
fn update_of_unknown_entry_is_not_found() {
    let (mut db, _pool, conn) = setup();
    post_login(&mut db, &conn, &login("ada")).unwrap();
    let update = Entry {
        id: Some(4),
        game_id: None,
        time_played: Some(1),
        last_update: None,
        status: None,
        game: None,
    };
    let failure = post_entry(&mut db, &conn, 1, &update, StorageFaults::none())
        .expect_err("no such entry is reachable");
    assert_eq!(failure.response.status, STATUS_NOT_FOUND);
}

#[test]
fn update_under_statement_failure_changes_nothing() {
    let (mut db, _pool, conn) = setup();
    post_login(&mut db, &conn, &login("ada")).unwrap();
    post_entry(
        &mut db,
        &conn,
        1,
        &create_input(3, Some(Status::Dropped), Some(1250)),
        StorageFaults::none(),
    )
    .unwrap();
    let faults = StorageFaults {
        entry_insert: false,
        library_insert: false,
        update: true,
        commit: false,
    };
    let update = Entry {
        id: Some(1),
        game_id: None,
        time_played: Some(2000),
        last_update: None,
        status: None,
        game: None,
    };
    let failure = post_entry(&mut db, &conn, 1, &update, faults)
        .expect_err("the update statement failed");
    assert_eq!(failure.response.status, STATUS_INTERNAL_SERVER_ERROR);
    let stored = get_entry(&db, &conn, 1, 1).unwrap();
    assert_eq!(stored.time_played, Some(1250));
}

#[test]
fn ownership_isolation_between_users() {
    let (mut db, _pool, conn) = setup();
    post_login(&mut db, &conn, &login("ada")).unwrap();
    post_login(&mut db, &conn, &login("bob")).unwrap();
    // bob (user 2) owns entry 1
    post_entry(
        &mut db,
        &conn,
        2,
        &create_input(3, Some(Status::Dropped), Some(500)),
        StorageFaults::none(),
    )
    .unwrap();
    // ada (user 1) tries to update bob's entry
    let update = Entry {
        id: Some(1),
        game_id: None,
        time_played: Some(9999),
        last_update: None,
        status: Some(Status::Frozen),
        game: None,
    };
    let failure = post_entry(&mut db, &conn, 1, &update, StorageFaults::none())
        .expect_err("a foreign entry must not be updatable");
    assert_eq!(failure.response.status, STATUS_NOT_FOUND);
    // bob's data is untouched, and ada's library is still empty
    let stored = get_entry(&db, &conn, 2, 1).unwrap();
    assert_eq!(stored.status, Some(Status::Dropped));
    assert_eq!(stored.time_played, Some(500));
    assert!(get_library(&db, &conn, 1).is_empty());
    // ada cannot even read it
    assert!(get_entry(&db, &conn, 1, 1).is_none());
}

#[test]
fn registration_returns_the_public_projection() {
    let (mut db, _pool, conn) = setup();
    let user = post_login(&mut db, &conn, &login("ada")).unwrap();
    assert_eq!(user.id, Some(1));
    assert_eq!(user.username, "ada");
    assert_eq!(user.email, "ada@example.net");
    let listed = get_users(&db, &conn);
    assert_eq!(listed.len(), 1);
    assert_eq!(listed[0].username, "ada");
    let fetched = get_user_by_id(&db, &conn, 1).unwrap();
    assert_eq!(fetched.email, "ada@example.net");
    assert!(get_user_by_id(&db, &conn, 2).is_none());
}

#[test]
fn game_catalog_lookups() {
    let (mut db, _pool, conn) = setup();
    let g1 = db.add_game("Spelunking".to_string(), "caves".to_string()).unwrap();
    let g2 = db.add_game("Orbiting".to_string(), "space".to_string()).unwrap();
    assert_eq!(g1.id, Some(1));
    assert_eq!(g2.id, Some(2));
    assert_eq!(get_games(&db, &conn).len(), 2);
    let found = get_game_by_id(&db, &conn, 2).unwrap();
    assert_eq!(found.name, "Orbiting");
    assert!(get_game_by_id(&db, &conn, 3).is_none());
}
