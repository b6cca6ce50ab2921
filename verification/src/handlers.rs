//! The request handlers, above all the create-or-update engine for
//! `Entry`/`Library` pairs.
//!
//! [`post_entry`] is the one multi-statement, ownership-checked operation in
//! the system. Its contract pins down both paths:
//!
//! - *update* (the input carries an id): the entry must be reachable through
//!   the acting user's own `Library` row; unset input fields keep the stored
//!   values; nothing but the addressed row changes.
//! - *create* (no id): a game id is required; status and play time get
//!   defaults; the `Entry` row and its owning `Library` row become visible
//!   together or not at all, whichever statement fails.

use vstd::prelude::*;

use crate::error::{Failure, ResponseSpec, STATUS_BAD_REQUEST, STATUS_INTERNAL_SERVER_ERROR,
    STATUS_NOT_FOUND};
use crate::models::{Entry, EntryV, Game, Library, LibraryV, Login, LoginV, Status, User, UserV};
use crate::pool::PooledConn;
use crate::store::{db_wf, has_entry, has_login, no_orphans, owns, Db, DbV, StorageFaults};
use vstd::pervasive::unreached;
use vstd::pervasive::VecAdditionalExecFns;

verus! {

/// The field-merge rule of the update path: an unset input field means
/// "leave unchanged"; there is no way to clear a stored value.
pub open spec fn merge_field<T>(input: Option<T>, prev: Option<T>) -> Option<T> {
    if input is Some {
        input
    } else {
        prev
    }
}

/// The index of the entry row carrying the id.
pub open spec fn entry_index_of(d: DbV, entry_id: i32) -> int {
    choose|i: int| 0 <= i < d.entries.len() && (#[trigger] d.entries[i]).id == Some(entry_id)
}

/// The stored row the update path leaves behind: the previous row with the
/// merged status and play time.
pub open spec fn updated_row(d: DbV, entry_id: i32, input: EntryV) -> EntryV {
    let prev = d.entries[entry_index_of(d, entry_id)];
    EntryV {
        status: merge_field(input.status, prev.status),
        time_played: merge_field(input.time_played, prev.time_played),
        ..prev
    }
}

/// The entry row the create path stores: the input with defaults filled in,
/// a fresh id, and the store's clock as its timestamp.
pub open spec fn created_row(d: DbV, input: EntryV) -> EntryV {
    EntryV {
        id: Some(d.next_entry_id),
        game_id: input.game_id,
        time_played: merge_field(input.time_played, Some(0u32)),
        last_update: Some(d.clock),
        status: merge_field(input.status, Some(Status::PlanToPlay)),
        game: None,
    }
}

/// The library row the create path stores beside the new entry.
pub open spec fn created_link(d: DbV, login_id: i32) -> LibraryV {
    LibraryV {
        id: Some(d.next_library_id),
        login_id,
        entry_id: d.next_entry_id,
        user: None,
        entry: None,
    }
}

/// Whether the create path is blocked: one of its statements fails, the
/// acting user does not exist (the link's foreign key would be violated), or
/// an id space is exhausted. In every such case nothing becomes visible.
pub open spec fn create_blocked(d: DbV, login_id: i32, faults: StorageFaults) -> bool {
    ||| faults.entry_insert
    ||| faults.library_insert
    ||| faults.commit
    ||| !has_login(d, login_id)
    ||| d.next_entry_id == i32::MAX
    ||| d.next_library_id == i32::MAX
}

/// The public projection of a login row.
pub open spec fn user_view_of(l: LoginV) -> UserV {
    UserV { id: l.id, username: l.username, email: l.email }
}

/// The index of the login row carrying the id.
pub open spec fn login_index_of(d: DbV, login_id: i32) -> int {
    choose|i: int| 0 <= i < d.logins.len() && (#[trigger] d.logins[i]).id == Some(login_id)
}

/// The index of the game row carrying the id.
pub open spec fn game_index_of(d: DbV, game_id: i32) -> int {
    choose|i: int| 0 <= i < d.games.len() && (#[trigger] d.games[i]).id == Some(game_id)
}

/// The entries of one user's library, in stored order: exactly those
/// reachable through a library row owned by the user.
pub open spec fn owned_entries(d: DbV, login_id: i32) -> Seq<EntryV> {
    d.entries.filter(|e: EntryV| owns(d, login_id, e.id->0))
}

/// Create atomicity: if the library insert fails after a successful entry
/// insert, the upsert reports a storage failure and leaves the store
/// exactly as it was — however often the scenario is retried, no entry row
/// becomes visible without its owning library row.
pub proof fn lemma_create_atomicity(
    d0: DbV,
    d1: DbV,
    user_id: i32,
    input: EntryV,
    faults: StorageFaults,
    outcome: Result<EntryV, u16>,
)
    requires
        input.id is None,
        input.game_id is Some,
        !faults.entry_insert,
        faults.library_insert,
        upsert_post(d0, d1, user_id, input, faults, outcome),
    ensures
        d1 == d0,
        outcome == Err::<EntryV, u16>(STATUS_INTERNAL_SERVER_ERROR),
{
}

/// Update merge: when the update sets only the play time, the addressed
/// row keeps its stored status and takes the new play time, and no other
/// row changes.
pub proof fn lemma_update_merge(
    d0: DbV,
    d1: DbV,
    user_id: i32,
    eid: i32,
    input: EntryV,
    faults: StorageFaults,
    outcome: Result<EntryV, u16>,
)
    requires
        db_wf(d0),
        input.id == Some(eid),
        owns(d0, user_id, eid),
        !faults.update,
        input.status is None,
        input.time_played is Some,
        upsert_post(d0, d1, user_id, input, faults, outcome),
    ensures
        ({
            let i = entry_index_of(d0, eid);
            &&& d1.entries.len() == d0.entries.len()
            &&& d1.entries[i].status == d0.entries[i].status
            &&& d1.entries[i].time_played == input.time_played
            &&& forall|j: int|
                0 <= j < d1.entries.len() && j != i ==> d1.entries[j] == d0.entries[j]
        }),
{
    lemma_owned_entry_exists(d0, user_id, eid);
}

/// A user cannot update an entry owned by another user: the operation
/// fails as a miss and affects no data of anyone.
pub proof fn lemma_foreign_update_rejected(
    d0: DbV,
    d1: DbV,
    user_a: i32,
    user_b: i32,
    eid: i32,
    input: EntryV,
    faults: StorageFaults,
    outcome: Result<EntryV, u16>,
)
    requires
        db_wf(d0),
        user_a != user_b,
        owns(d0, user_b, eid),
        input.id == Some(eid),
        upsert_post(d0, d1, user_a, input, faults, outcome),
    ensures
        d1 == d0,
        outcome == Err::<EntryV, u16>(STATUS_NOT_FOUND),
{
    lemma_ownership_isolation(d0, user_a, user_b, eid);
}

/// Ownership isolation: the library rows link each entry to at most one
/// owner, so an entry reachable by one user is reachable by no other.
pub proof fn lemma_ownership_isolation(d: DbV, user_a: i32, user_b: i32, entry_id: i32)
    requires
        db_wf(d),
        user_a != user_b,
        owns(d, user_b, entry_id),
    ensures
        !owns(d, user_a, entry_id),
{
    if owns(d, user_a, entry_id) {
        let j = choose|j: int|
            0 <= j < d.libraries.len() && (#[trigger] d.libraries[j]).login_id == user_a
                && d.libraries[j].entry_id == entry_id;
        let k = choose|k: int|
            0 <= k < d.libraries.len() && (#[trigger] d.libraries[k]).login_id == user_b
                && d.libraries[k].entry_id == entry_id;
        assert(j != k);
        assert(d.libraries[j].entry_id != d.libraries[k].entry_id);
    }
}

/// An entry reachable through some library row exists in the entry table.
pub proof fn lemma_owned_entry_exists(d: DbV, login_id: i32, entry_id: i32)
    requires
        db_wf(d),
        owns(d, login_id, entry_id),
    ensures
        has_entry(d, entry_id),
{
    let w = choose|j: int|
        0 <= j < d.libraries.len() && (#[trigger] d.libraries[j]).login_id == login_id
            && d.libraries[j].entry_id == entry_id;
    assert(has_entry(d, d.libraries[w].entry_id));
}

/// Whether the acting user reaches the entry through their own library row.
fn find_owned(db: &Db, login_id: i32, entry_id: i32) -> (r: bool)
    ensures
        r == owns(db@, login_id, entry_id),
{
    let n = db.libraries.len();
    let mut k: usize = 0;
    while k < n
        invariant
            n == db.libraries.len(),
            k <= n,
            forall|j: int|
                0 <= j < k ==> !((#[trigger] db@.libraries[j]).login_id == login_id
                    && db@.libraries[j].entry_id == entry_id),
        decreases n - k,
    {
        if db.libraries[k].login_id == login_id && db.libraries[k].entry_id == entry_id {
            proof {
                assert(db@.libraries[k as int].login_id == login_id);
            }
            return true;
        }
        k = k + 1;
    }
    false
}

/// Whether a login row carries the id.
fn login_exists(db: &Db, login_id: i32) -> (r: bool)
    ensures
        r == has_login(db@, login_id),
{
    let n = db.logins.len();
    let mut k: usize = 0;
    while k < n
        invariant
            n == db.logins.len(),
            k <= n,
            forall|j: int| 0 <= j < k ==> (#[trigger] db@.logins[j]).id != Some(login_id),
        decreases n - k,
    {
        let hit = match db.logins[k].id {
            Some(v) => v == login_id,
            None => false,
        };
        if hit {
            proof {
                assert(db@.logins[k as int].id == Some(login_id));
            }
            return true;
        }
        k = k + 1;
    }
    false
}

/// The index of the entry row carrying the id, if any row does.
fn find_entry_index(db: &Db, entry_id: i32) -> (r: Option<usize>)
    ensures
        r matches Some(i) ==> 0 <= i < db@.entries.len() && db@.entries[i as int].id == Some(
            entry_id,
        ),
        r is None ==> !has_entry(db@, entry_id),
{
    let n = db.entries.len();
    let mut k: usize = 0;
    while k < n
        invariant
            n == db.entries.len(),
            k <= n,
            forall|j: int| 0 <= j < k ==> (#[trigger] db@.entries[j]).id != Some(entry_id),
        decreases n - k,
    {
        let hit = match db.entries[k].id {
            Some(v) => v == entry_id,
            None => false,
        };
        if hit {
            return Some(k);
        }
        k = k + 1;
    }
    None
}

/// A storage-side failure, reported generically.
fn storage_failure(cause: &str) -> (r: Failure)
    ensures
        r.response.status == STATUS_INTERNAL_SERVER_ERROR,
{
    Failure {
        response: ResponseSpec::of_status(STATUS_INTERNAL_SERVER_ERROR),
        cause: cause.to_owned(),
    }
}

/// The whole effect of one create-or-update call: a relation between the
/// store before, the store after, and the outcome the caller saw — `Ok`
/// with the returned entry, or `Err` with the response's status code. The
/// middleware chain restates this same relation end to end.
pub open spec fn upsert_post(
    d0: DbV,
    d1: DbV,
    user_id: i32,
    input: EntryV,
    faults: StorageFaults,
    outcome: Result<EntryV, u16>,
) -> bool {
    &&& d1.logins == d0.logins
    &&& d1.games == d0.games
    &&& d1.clock == d0.clock
    &&& d1.next_login_id == d0.next_login_id
    &&& d1.next_game_id == d0.next_game_id
    &&& match input.id {
        // update path
        Some(eid) => {
            &&& !owns(d0, user_id, eid) ==> outcome == Err::<EntryV, u16>(STATUS_NOT_FOUND) && d1
                == d0
            &&& owns(d0, user_id, eid) && faults.update ==> outcome == Err::<EntryV, u16>(
                STATUS_INTERNAL_SERVER_ERROR,
            ) && d1 == d0
            &&& owns(d0, user_id, eid) && !faults.update ==> {
                &&& d1 == (DbV {
                    entries: d0.entries.update(entry_index_of(d0, eid), updated_row(d0, eid, input)),
                    ..d0
                })
                &&& outcome == Ok::<EntryV, u16>(EntryV {
                    status: updated_row(d0, eid, input).status,
                    time_played: updated_row(d0, eid, input).time_played,
                    ..input
                })
            }
        },
        // create path
        None => {
            &&& input.game_id is None ==> outcome == Err::<EntryV, u16>(STATUS_BAD_REQUEST) && d1
                == d0
            &&& input.game_id is Some && create_blocked(d0, user_id, faults) ==> outcome == Err::<
                EntryV,
                u16,
            >(STATUS_INTERNAL_SERVER_ERROR) && d1 == d0
            &&& input.game_id is Some && !create_blocked(d0, user_id, faults) ==> {
                &&& d1 == (DbV {
                    entries: d0.entries.push(created_row(d0, input)),
                    libraries: d0.libraries.push(created_link(d0, user_id)),
                    next_entry_id: (d0.next_entry_id + 1) as i32,
                    next_library_id: (d0.next_library_id + 1) as i32,
                    ..d0
                })
                &&& outcome == Ok::<EntryV, u16>(created_row(d0, input))
            }
        },
    }
}

/// The outcome a create-or-update result stands for: the returned entry, or
/// the status the failure answers with.
pub open spec fn upsert_outcome(r: Result<Entry, Failure>) -> Result<EntryV, u16> {
    match r {
        Ok(e) => Ok(e@),
        Err(f) => Err(f.response.status),
    }
}

/// Creates or updates one entry on behalf of the acting user.
///
/// With an id, the entry reachable through the user's own library row is
/// updated: unset input fields keep the stored values, and only that row
/// changes. A miss of the ownership check fails the request; it never
/// silently succeeds and never touches another user's data.
///
/// Without an id, a new entry and its owning library row are inserted inside
/// one transaction: if any statement fails, nothing becomes visible.
pub fn post_entry(
    db: &mut Db,
    conn: &PooledConn,
    user_id: i32,
    input: &Entry,
    faults: StorageFaults,
) -> (r: Result<Entry, Failure>)
    requires
        old(db).wf(),
    ensures
        final(db).wf(),
        no_orphans(final(db)@),
        upsert_post(old(db)@, final(db)@, user_id, input@, faults, upsert_outcome(r)),
{
    let ghost d0 = db@;
    if let Some(eid) = input.id {
        // Update path. The read and the write are both ownership-guarded.
        if !find_owned(db, user_id, eid) {
            return Err(Failure {
                response: ResponseSpec::of_status(STATUS_NOT_FOUND),
                cause: "no such entry in this user's library".to_owned(),
            });
        }
        if faults.update {
            return Err(storage_failure("the update statement failed"));
        }
        let i: usize = match find_entry_index(db, eid) {
            Some(i) => i,
            None => {
                proof {
                    lemma_owned_entry_exists(d0, user_id, eid);
                }
                unreached()
            },
        };
        proof {
            let ic = entry_index_of(d0, eid);
            assert(0 <= ic < d0.entries.len() && d0.entries[ic].id == Some(eid));
            assert(d0.entries[i as int].id == Some(eid));
            if ic != i as int {
                assert(d0.entries[ic].id != d0.entries[i as int].id);
            }
            assert(ic == i as int);
        }
        let prev_status = db.entries[i].status;
        let prev_time = db.entries[i].time_played;
        let st = if input.status.is_some() {
            input.status
        } else {
            prev_status
        };
        let tp = if input.time_played.is_some() {
            input.time_played
        } else {
            prev_time
        };
        let prev_id = db.entries[i].id;
        let prev_game_id = db.entries[i].game_id;
        let prev_last = match &db.entries[i].last_update {
            Some(s) => Some(s.clone()),
            None => None,
        };
        proof {
            assert(crate::store::entry_row_ok(d0.entries[i as int], d0.next_entry_id));
        }
        let stored = Entry {
            id: prev_id,
            game_id: prev_game_id,
            time_played: tp,
            last_update: prev_last,
            status: st,
            game: None,
        };
        proof {
            assert(stored@ == updated_row(d0, eid, input@));
        }
        db.entries.set(i, stored);
        proof {
            assert(db@.entries =~= d0.entries.update(i as int, updated_row(d0, eid, input@)));
            assert(db@ =~= (DbV {
                entries: d0.entries.update(entry_index_of(d0, eid), updated_row(d0, eid, input@)),
                ..d0
            }));
            lemma_update_preserves_wf(d0, db@, eid, input@);
        }
        let game = match &input.game {
            Some(g) => Some(g.clone()),
            None => None,
        };
        let last_update = match &input.last_update {
            Some(s) => Some(s.clone()),
            None => None,
        };
        Ok(Entry {
            id: input.id,
            game_id: input.game_id,
            time_played: tp,
            last_update,
            status: st,
            game,
        })
    } else {
        // Create path: one transaction around both inserts. Nothing below
        // touches the store until every statement has succeeded.
        if input.game_id.is_none() {
            return Err(Failure {
                response: ResponseSpec::of_status(STATUS_BAD_REQUEST),
                cause: "both the game id and the entry id are missing".to_owned(),
            });
        }
        if faults.entry_insert {
            return Err(storage_failure("inserting the new entry failed"));
        }
        if db.next_entry_id == i32::MAX {
            return Err(storage_failure("the entry id space is exhausted"));
        }
        if faults.library_insert || db.next_library_id == i32::MAX {
            return Err(storage_failure("inserting the library row failed"));
        }
        if !login_exists(db, user_id) {
            return Err(storage_failure("the library row references an unknown user"));
        }
        if faults.commit {
            return Err(storage_failure("the transaction could not be committed"));
        }
        let st = if input.status.is_some() {
            input.status
        } else {
            Some(Status::PlanToPlay)
        };
        let tp = if input.time_played.is_some() {
            input.time_played
        } else {
            Some(0u32)
        };
        let new_id = db.next_entry_id;
        let stored = Entry {
            id: Some(new_id),
            game_id: input.game_id,
            time_played: tp,
            last_update: Some(db.clock.clone()),
            status: st,
            game: None,
        };
        let result = stored.clone();
        proof {
            assert(stored@ == created_row(d0, input@));
        }
        db.entries.push(stored);
        db.libraries.push(Library {
            id: Some(db.next_library_id),
            login_id: user_id,
            entry_id: new_id,
            user: None,
            entry: None,
        });
        db.next_entry_id = db.next_entry_id + 1;
        db.next_library_id = db.next_library_id + 1;
        proof {
            assert(db@.entries =~= d0.entries.push(created_row(d0, input@)));
            assert(db@.libraries =~= d0.libraries.push(created_link(d0, user_id)));
            assert(db@ =~= (DbV {
                entries: d0.entries.push(created_row(d0, input@)),
                libraries: d0.libraries.push(created_link(d0, user_id)),
                next_entry_id: (d0.next_entry_id + 1) as i32,
                next_library_id: (d0.next_library_id + 1) as i32,
                ..d0
            }));
            lemma_create_preserves_wf(d0, db@, user_id, input@);
        }
        Ok(result)
    }
}

/// Lists every registered user, without passwords, in stored order.
pub fn get_users(db: &Db, conn: &PooledConn) -> (r: Vec<User>)
    ensures
        r@.len() == db@.logins.len(),
        forall|i: int| 0 <= i < r@.len() ==> (#[trigger] r@[i])@ == user_view_of(db@.logins[i]),
{
    let n = db.logins.len();
    let mut out: Vec<User> = Vec::new();
    let mut k: usize = 0;
    while k < n
        invariant
            n == db.logins.len(),
            k <= n,
            out@.len() == k,
            forall|i: int| 0 <= i < k ==> (#[trigger] out@[i])@ == user_view_of(db@.logins[i]),
        decreases n - k,
    {
        out.push(db.logins[k].to_user());
        k = k + 1;
    }
    out
}

/// Looks one user up by id; `None` when no login row carries it.
pub fn get_user_by_id(db: &Db, conn: &PooledConn, id: i32) -> (r: Option<User>)
    requires
        db.wf(),
    ensures
        r is Some <==> has_login(db@, id),
        r matches Some(u) ==> u@ == user_view_of(db@.logins[login_index_of(db@, id)]),
{
    let n = db.logins.len();
    let mut k: usize = 0;
    while k < n
        invariant
            db.wf(),
            n == db.logins.len(),
            k <= n,
            forall|j: int| 0 <= j < k ==> (#[trigger] db@.logins[j]).id != Some(id),
        decreases n - k,
    {
        let hit = match db.logins[k].id {
            Some(v) => v == id,
            None => false,
        };
        if hit {
            proof {
                let d = db@;
                assert(db_wf(d));
                assert(d.logins[k as int].id == Some(id));
                let ic = login_index_of(d, id);
                assert(0 <= ic < d.logins.len() && d.logins[ic].id == Some(id));
                if ic != k as int {
                    assert(d.logins[ic].id != d.logins[k as int].id);
                }
                assert(ic == k as int);
            }
            return Some(db.logins[k].to_user());
        }
        k = k + 1;
    }
    None
}

/// Lists the game catalog in stored order.
pub fn get_games(db: &Db, conn: &PooledConn) -> (r: Vec<Game>)
    ensures
        r@.len() == db@.games.len(),
        forall|i: int| 0 <= i < r@.len() ==> (#[trigger] r@[i])@ == db@.games[i],
{
    let n = db.games.len();
    let mut out: Vec<Game> = Vec::new();
    let mut k: usize = 0;
    while k < n
        invariant
            n == db.games.len(),
            k <= n,
            out@.len() == k,
            forall|i: int| 0 <= i < k ==> (#[trigger] out@[i])@ == db@.games[i],
        decreases n - k,
    {
        out.push(db.games[k].clone());
        k = k + 1;
    }
    out
}

/// Looks one game up by id; `None` when the catalog has no such row.
pub fn get_game_by_id(db: &Db, conn: &PooledConn, id: i32) -> (r: Option<Game>)
    requires
        db.wf(),
    ensures
        r is Some <==> crate::store::has_game(db@, id),
        r matches Some(g) ==> g@ == db@.games[game_index_of(db@, id)],
{
    let n = db.games.len();
    let mut k: usize = 0;
    while k < n
        invariant
            db.wf(),
            n == db.games.len(),
            k <= n,
            forall|j: int| 0 <= j < k ==> (#[trigger] db@.games[j]).id != Some(id),
        decreases n - k,
    {
        let hit = match db.games[k].id {
            Some(v) => v == id,
            None => false,
        };
        if hit {
            proof {
                let d = db@;
                assert(db_wf(d));
                assert(d.games[k as int].id == Some(id));
                let ic = game_index_of(d, id);
                assert(0 <= ic < d.games.len() && d.games[ic].id == Some(id));
                if ic != k as int {
                    assert(d.games[ic].id != d.games[k as int].id);
                }
                assert(ic == k as int);
            }
            return Some(db.games[k].clone());
        }
        k = k + 1;
    }
    None
}

/// Lists the closed status enumeration, in its declared order.
pub fn get_status(conn: &PooledConn) -> (r: Vec<Status>)
    ensures
        r@ =~= seq![Status::Frozen, Status::CurrentlyPlaying, Status::Dropped, Status::PlanToPlay],
{
    let mut out: Vec<Status> = Vec::new();
    out.push(Status::Frozen);
    out.push(Status::CurrentlyPlaying);
    out.push(Status::Dropped);
    out.push(Status::PlanToPlay);
    out
}

/// Looks one entry up, ownership-checked: the result is `Some` exactly when
/// the acting user reaches the entry through their own library row.
pub fn get_entry(db: &Db, conn: &PooledConn, user_id: i32, entry_id: i32) -> (r: Option<Entry>)
    requires
        db.wf(),
    ensures
        r is Some <==> owns(db@, user_id, entry_id),
        r matches Some(e) ==> e@ == db@.entries[entry_index_of(db@, entry_id)],
{
    if !find_owned(db, user_id, entry_id) {
        return None;
    }
    let i: usize = match find_entry_index(db, entry_id) {
        Some(i) => i,
        None => {
            proof {
                lemma_owned_entry_exists(db@, user_id, entry_id);
            }
            unreached()
        },
    };
    proof {
        let ic = entry_index_of(db@, entry_id);
        assert(0 <= ic < db@.entries.len() && db@.entries[ic].id == Some(entry_id));
        if ic != i as int {
            assert(db@.entries[ic].id != db@.entries[i as int].id);
        }
    }
    Some(db.entries[i].clone())
}

/// Lists one user's library: exactly the entries reachable through the
/// user's own library rows, in stored order.
pub fn get_library(db: &Db, conn: &PooledConn, user_id: i32) -> (r: Vec<Entry>)
    requires
        db.wf(),
    ensures
        r@.map_values(|e: Entry| e@) == owned_entries(db@, user_id),
{
    let ghost pred = |e: EntryV| owns(db@, user_id, e.id->0);
    let n = db.entries.len();
    let mut out: Vec<Entry> = Vec::new();
    let mut k: usize = 0;
    proof {
        reveal(Seq::filter);
        assert(db@.entries.take(0).filter(pred) =~= Seq::<EntryV>::empty());
        assert(out@.map_values(|e: Entry| e@) =~= Seq::<EntryV>::empty());
    }
    while k < n
        invariant
            db.wf(),
            n == db.entries.len(),
            k <= n,
            out@.map_values(|e: Entry| e@) == db@.entries.take(k as int).filter(pred),
            pred == (|e: EntryV| owns(db@, user_id, e.id->0)),
        decreases n - k,
    {
        let eid = match db.entries[k].id {
            Some(v) => v,
            None => {
                proof {
                    assert(crate::store::entry_row_ok(db@.entries[k as int], db@.next_entry_id));
                }
                unreached()
            },
        };
        let keep = find_owned(db, user_id, eid);
        proof {
            reveal(Seq::filter);
            let prefix = db@.entries.take(k as int + 1);
            assert(prefix.drop_last() =~= db@.entries.take(k as int));
            assert(prefix.last() == db@.entries[k as int]);
            assert(pred(db@.entries[k as int]) == keep);
        }
        if keep {
            out.push(db.entries[k].clone());
            proof {
                assert(out@.map_values(|e: Entry| e@) =~= db@.entries.take(k as int).filter(
                    pred,
                ).push(db@.entries[k as int]));
            }
        }
        k = k + 1;
    }
    proof {
        assert(db@.entries.take(n as int) =~= db@.entries);
    }
    out
}

/// Registers one account: the login row is stored with a fresh id, and its
/// public projection is returned. Fails only when the id space is exhausted,
/// which stands for a storage failure.
pub fn post_login(db: &mut Db, conn: &PooledConn, login: &Login) -> (r: Result<User, Failure>)
    requires
        old(db).wf(),
    ensures
        final(db).wf(),
        final(db)@.games == old(db)@.games,
        final(db)@.entries == old(db)@.entries,
        final(db)@.libraries == old(db)@.libraries,
        final(db)@.clock == old(db)@.clock,
        old(db)@.next_login_id == i32::MAX ==> (r matches Err(f) && f.response.status
            == STATUS_INTERNAL_SERVER_ERROR && final(db)@ == old(db)@),
        old(db)@.next_login_id < i32::MAX ==> {
            let d0 = old(db)@;
            let stored = LoginV {
                id: Some(d0.next_login_id),
                username: login@.username,
                password: login@.password,
                email: login@.email,
            };
            &&& final(db)@ == (DbV {
                logins: d0.logins.push(stored),
                next_login_id: (d0.next_login_id + 1) as i32,
                ..d0
            })
            &&& r matches Ok(u) && u@ == (UserV {
                id: Some(d0.next_login_id),
                username: login@.username,
                email: login@.email,
            })
        },
{
    let ghost d0 = db@;
    if db.next_login_id == i32::MAX {
        return Err(storage_failure("the login id space is exhausted"));
    }
    let id = db.next_login_id;
    let stored = Login {
        id: Some(id),
        username: login.username.clone(),
        password: login.password.clone(),
        email: login.email.clone(),
    };
    let user = stored.to_user();
    db.logins.push(stored);
    db.next_login_id = db.next_login_id + 1;
    proof {
        let d1 = db@;
        assert(d1.logins =~= d0.logins.push(LoginV {
            id: Some(d0.next_login_id),
            username: login@.username,
            password: login@.password,
            email: login@.email,
        }));
        assert(d1 =~= (DbV {
            logins: d0.logins.push(LoginV {
                id: Some(d0.next_login_id),
                username: login@.username,
                password: login@.password,
                email: login@.email,
            }),
            next_login_id: (d0.next_login_id + 1) as i32,
            ..d0
        }));
        let nl = d0.logins.len() as int;
        assert forall|i: int, j: int|
            0 <= i < d1.logins.len() && 0 <= j < d1.logins.len() && i != j implies (
        #[trigger] d1.logins[i]).id != (#[trigger] d1.logins[j]).id by {
            if i < nl && j < nl {
                assert(d0.logins[i].id != d0.logins[j].id);
            }
        }
        assert forall|k: int| 0 <= k < d1.libraries.len() implies has_login(
            d1,
            (#[trigger] d1.libraries[k]).login_id,
        ) by {
            assert(has_login(d0, d0.libraries[k].login_id));
            let w = choose|j: int|
                0 <= j < d0.logins.len() && (#[trigger] d0.logins[j]).id == Some(
                    d0.libraries[k].login_id,
                );
            assert(d1.logins[w].id == Some(d1.libraries[k].login_id));
        }
        assert forall|k: int| 0 <= k < d1.libraries.len() implies has_entry(
            d1,
            (#[trigger] d1.libraries[k]).entry_id,
        ) by {
            assert(has_entry(d0, d0.libraries[k].entry_id));
        }
        assert forall|k: int| 0 <= k < d1.entries.len() implies crate::store::is_linked(
            d1,
            (#[trigger] d1.entries[k]).id->0,
        ) by {
            assert(crate::store::is_linked(d0, d0.entries[k].id->0));
        }
    }
    Ok(user)
}

/// An ownership-guarded update of one entry row keeps the store well-formed.
proof fn lemma_update_preserves_wf(d0: DbV, d1: DbV, eid: i32, input: EntryV)
    requires
        db_wf(d0),
        has_entry(d0, eid),
        d1 == (DbV {
            entries: d0.entries.update(entry_index_of(d0, eid), updated_row(d0, eid, input)),
            ..d0
        }),
    ensures
        db_wf(d1),
{
    let i = entry_index_of(d0, eid);
    assert(0 <= i < d0.entries.len() && d0.entries[i].id == Some(eid));
    assert(d1.entries.len() == d0.entries.len());
    assert forall|k: int| 0 <= k < d1.entries.len() implies (#[trigger] d1.entries[k]).id
        == d0.entries[k].id by {
        if k == i {
            assert(d1.entries[k] == updated_row(d0, eid, input));
        }
    }
    assert forall|k: int| 0 <= k < d1.entries.len() implies crate::store::entry_row_ok(
        #[trigger] d1.entries[k],
        d1.next_entry_id,
    ) by {
        assert(crate::store::entry_row_ok(d0.entries[k], d0.next_entry_id));
        if k == i {
            assert(d1.entries[k] == updated_row(d0, eid, input));
        }
    }
    assert forall|k: int| 0 <= k < d1.libraries.len() implies has_entry(
        d1,
        (#[trigger] d1.libraries[k]).entry_id,
    ) by {
        assert(has_entry(d0, d0.libraries[k].entry_id));
        let w = choose|j: int|
            0 <= j < d0.entries.len() && (#[trigger] d0.entries[j]).id == Some(
                d0.libraries[k].entry_id,
            );
        assert(d1.entries[w].id == Some(d1.libraries[k].entry_id));
    }
    assert forall|k: int| 0 <= k < d1.entries.len() implies crate::store::is_linked(
        d1,
        (#[trigger] d1.entries[k]).id->0,
    ) by {
        assert(crate::store::is_linked(d0, d0.entries[k].id->0));
        let w = choose|j: int|
            0 <= j < d0.libraries.len() && (#[trigger] d0.libraries[j]).entry_id
                == d0.entries[k].id->0;
        assert(d1.libraries[w].entry_id == d1.entries[k].id->0);
    }
}

/// The transactional double insert of the create path keeps the store
/// well-formed: the fresh entry is linked by the fresh library row.
proof fn lemma_create_preserves_wf(d0: DbV, d1: DbV, login_id: i32, input: EntryV)
    requires
        db_wf(d0),
        has_login(d0, login_id),
        input.game_id is Some,
        d0.next_entry_id < i32::MAX,
        d0.next_library_id < i32::MAX,
        d1 == (DbV {
            entries: d0.entries.push(created_row(d0, input)),
            libraries: d0.libraries.push(created_link(d0, login_id)),
            next_entry_id: (d0.next_entry_id + 1) as i32,
            next_library_id: (d0.next_library_id + 1) as i32,
            ..d0
        }),
    ensures
        db_wf(d1),
{
    let ne = d0.entries.len() as int;
    let nl = d0.libraries.len() as int;
    // entry ids stay unique and in range
    assert forall|k: int| 0 <= k < d1.entries.len() implies crate::store::entry_row_ok(
        #[trigger] d1.entries[k],
        d1.next_entry_id,
    ) by {
        if k < ne {
            assert(crate::store::entry_row_ok(d0.entries[k], d0.next_entry_id));
        }
    }
    assert forall|k: int, l: int|
        0 <= k < d1.entries.len() && 0 <= l < d1.entries.len() && k != l implies (
    #[trigger] d1.entries[k]).id != (#[trigger] d1.entries[l]).id by {
        if k < ne && l < ne {
            assert(d0.entries[k].id != d0.entries[l].id);
        } else if k < ne {
            assert(crate::store::entry_row_ok(d0.entries[k], d0.next_entry_id));
        } else if l < ne {
            assert(crate::store::entry_row_ok(d0.entries[l], d0.next_entry_id));
        }
    }
    // library ids stay unique and in range
    assert forall|k: int| 0 <= k < d1.libraries.len() implies crate::store::library_row_ok(
        #[trigger] d1.libraries[k],
        d1.next_library_id,
    ) by {
        if k < nl {
            assert(crate::store::library_row_ok(d0.libraries[k], d0.next_library_id));
        }
    }
    assert forall|k: int, l: int|
        0 <= k < d1.libraries.len() && 0 <= l < d1.libraries.len() && k != l implies (
    #[trigger] d1.libraries[k]).id != (#[trigger] d1.libraries[l]).id by {
        if k < nl && l < nl {
            assert(d0.libraries[k].id != d0.libraries[l].id);
        } else if k < nl {
            assert(crate::store::library_row_ok(d0.libraries[k], d0.next_library_id));
        } else if l < nl {
            assert(crate::store::library_row_ok(d0.libraries[l], d0.next_library_id));
        }
    }
    // every library row still references an existing login
    assert forall|k: int| 0 <= k < d1.libraries.len() implies has_login(
        d1,
        (#[trigger] d1.libraries[k]).login_id,
    ) by {
        if k < nl {
            assert(has_login(d0, d0.libraries[k].login_id));
            let w = choose|j: int|
                0 <= j < d0.logins.len() && (#[trigger] d0.logins[j]).id == Some(
                    d0.libraries[k].login_id,
                );
            assert(d1.logins[w].id == Some(d1.libraries[k].login_id));
        } else {
            let w = choose|j: int|
                0 <= j < d0.logins.len() && (#[trigger] d0.logins[j]).id == Some(login_id);
            assert(d1.logins[w].id == Some(d1.libraries[k].login_id));
        }
    }
    // every library row still references an existing entry
    assert forall|k: int| 0 <= k < d1.libraries.len() implies has_entry(
        d1,
        (#[trigger] d1.libraries[k]).entry_id,
    ) by {
        if k < nl {
            assert(has_entry(d0, d0.libraries[k].entry_id));
            let w = choose|j: int|
                0 <= j < d0.entries.len() && (#[trigger] d0.entries[j]).id == Some(
                    d0.libraries[k].entry_id,
                );
            assert(d1.entries[w].id == Some(d1.libraries[k].entry_id));
        } else {
            assert(d1.entries[ne].id == Some(d1.libraries[k].entry_id));
        }
    }
    // every entry, including the fresh one, is linked
    assert forall|k: int| 0 <= k < d1.entries.len() implies crate::store::is_linked(
        d1,
        (#[trigger] d1.entries[k]).id->0,
    ) by {
        if k < ne {
            assert(crate::store::is_linked(d0, d0.entries[k].id->0));
            let w = choose|j: int|
                0 <= j < d0.libraries.len() && (#[trigger] d0.libraries[j]).entry_id
                    == d0.entries[k].id->0;
            assert(d1.libraries[w].entry_id == d1.entries[k].id->0);
        } else {
            assert(d1.libraries[nl].entry_id == d1.entries[k].id->0);
        }
    }
    // no two library rows link the same entry
    assert forall|k: int, l: int|
        0 <= k < d1.libraries.len() && 0 <= l < d1.libraries.len() && k != l implies (
    #[trigger] d1.libraries[k]).entry_id != (#[trigger] d1.libraries[l]).entry_id by {
        if k < nl && l < nl {
            assert(d0.libraries[k].entry_id != d0.libraries[l].entry_id);
        } else if k < nl {
            assert(has_entry(d0, d0.libraries[k].entry_id));
            let w = choose|j: int|
                0 <= j < d0.entries.len() && (#[trigger] d0.entries[j]).id == Some(
                    d0.libraries[k].entry_id,
                );
            assert(crate::store::entry_row_ok(d0.entries[w], d0.next_entry_id));
        } else if l < nl {
            assert(has_entry(d0, d0.libraries[l].entry_id));
            let w = choose|j: int|
                0 <= j < d0.entries.len() && (#[trigger] d0.entries[j]).id == Some(
                    d0.libraries[l].entry_id,
                );
            assert(crate::store::entry_row_ok(d0.entries[w], d0.next_entry_id));
        }
    }
}

} // verus!
