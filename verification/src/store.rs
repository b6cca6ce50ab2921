//! The relational state the service operates on, modelled as plain tables.
//!
//! `Db` stands for the content of the four tables behind one database. Its
//! well-formedness predicate carries the system's structural invariants:
//! row ids are unique and below the table's id counter, every `Library` row
//! references an existing login and entry, and every stored entry is linked
//! to exactly one `Library` row — an entry with no owning row must never
//! exist.

use vstd::prelude::*;

use crate::models::{Entry, EntryV, Game, GameV, Library, LibraryV, Login, LoginV};

verus! {

/// The tables of the backing store, plus the id counters the store assigns
/// fresh primary keys from and the wall-clock text it stamps new rows with.
///
/// The clock is handed in from outside: the store itself never reads time.
pub struct Db {
    pub logins: Vec<Login>,
    pub games: Vec<Game>,
    pub entries: Vec<Entry>,
    pub libraries: Vec<Library>,
    pub next_login_id: i32,
    pub next_game_id: i32,
    pub next_entry_id: i32,
    pub next_library_id: i32,
    pub clock: String,
}

/// View of `Db`: the same tables as sequences of row views.
#[verifier::ext_equal]
pub ghost struct DbV {
    pub logins: Seq<LoginV>,
    pub games: Seq<GameV>,
    pub entries: Seq<EntryV>,
    pub libraries: Seq<LibraryV>,
    pub next_login_id: i32,
    pub next_game_id: i32,
    pub next_entry_id: i32,
    pub next_library_id: i32,
    pub clock: Seq<char>,
}

impl View for Db {
    type V = DbV;

    open spec fn view(&self) -> DbV {
        DbV {
            logins: self.logins@.map_values(|l: Login| l@),
            games: self.games@.map_values(|g: Game| g@),
            entries: self.entries@.map_values(|e: Entry| e@),
            libraries: self.libraries@.map_values(|l: Library| l@),
            next_login_id: self.next_login_id,
            next_game_id: self.next_game_id,
            next_entry_id: self.next_entry_id,
            next_library_id: self.next_library_id,
            clock: self.clock@,
        }
    }
}

/// Which of the upsert engine's storage statements fail on this request.
///
/// A real store may fail any statement; the engine is verified for every
/// combination, so whatever the store does at run time, the contracts hold.
/// The surrounding process observes the outcomes and hands them in.
#[derive(Clone, Copy, PartialEq, Eq, Structural, Debug)]
pub struct StorageFaults {
    pub entry_insert: bool,
    pub library_insert: bool,
    pub update: bool,
    pub commit: bool,
}

impl StorageFaults {
    /// Every statement succeeds.
    pub fn none() -> (r: StorageFaults)
        ensures
            r == (StorageFaults {
                entry_insert: false,
                library_insert: false,
                update: false,
                commit: false,
            }),
    {
        StorageFaults { entry_insert: false, library_insert: false, update: false, commit: false }
    }
}

/// Whether some login row carries the id.
pub open spec fn has_login(d: DbV, id: i32) -> bool {
    exists|i: int| 0 <= i < d.logins.len() && (#[trigger] d.logins[i]).id == Some(id)
}

/// Whether some entry row carries the id.
pub open spec fn has_entry(d: DbV, id: i32) -> bool {
    exists|i: int| 0 <= i < d.entries.len() && (#[trigger] d.entries[i]).id == Some(id)
}

/// Whether some game row carries the id.
pub open spec fn has_game(d: DbV, id: i32) -> bool {
    exists|i: int| 0 <= i < d.games.len() && (#[trigger] d.games[i]).id == Some(id)
}

/// The ownership relation: the user reaches the entry through a `Library`
/// row of their own.
pub open spec fn owns(d: DbV, login_id: i32, entry_id: i32) -> bool {
    exists|i: int|
        0 <= i < d.libraries.len() && (#[trigger] d.libraries[i]).login_id == login_id
            && d.libraries[i].entry_id == entry_id
}

/// The normal form of a stored entry row: a primary key below the counter,
/// a fixed game, concrete play time and status, a timestamp, and no lazily
/// attached catalog value.
pub open spec fn entry_row_ok(e: EntryV, next_id: i32) -> bool {
    &&& e.id matches Some(v) && 1 <= v < next_id
    &&& e.game_id is Some
    &&& e.time_played is Some
    &&& e.last_update is Some
    &&& e.status is Some
    &&& e.game is None
}

/// The normal form of a stored library row: a primary key below the counter
/// and no lazily attached values.
pub open spec fn library_row_ok(l: LibraryV, next_id: i32) -> bool {
    &&& l.id matches Some(v) && 1 <= v < next_id
    &&& l.user is None
    &&& l.entry is None
}

/// The store's structural invariants.
pub open spec fn db_wf(d: DbV) -> bool {
    &&& 1 <= d.next_login_id
    &&& 1 <= d.next_game_id
    &&& 1 <= d.next_entry_id
    &&& 1 <= d.next_library_id
    // logins: keyed rows with unique ids below the counter
    &&& forall|i: int|
        0 <= i < d.logins.len() ==> ((#[trigger] d.logins[i]).id matches Some(v) && 1 <= v
            < d.next_login_id)
    &&& forall|i: int, j: int|
        0 <= i < d.logins.len() && 0 <= j < d.logins.len() && i != j ==> (#[trigger] d.logins[i]).id
            != (#[trigger] d.logins[j]).id
    // games: keyed rows with unique ids below the counter
    &&& forall|i: int|
        0 <= i < d.games.len() ==> ((#[trigger] d.games[i]).id matches Some(v) && 1 <= v
            < d.next_game_id)
    &&& forall|i: int, j: int|
        0 <= i < d.games.len() && 0 <= j < d.games.len() && i != j ==> (#[trigger] d.games[i]).id
            != (#[trigger] d.games[j]).id
    // entries: normal-form rows with unique ids
    &&& forall|i: int| 0 <= i < d.entries.len() ==> entry_row_ok(#[trigger] d.entries[i], d.next_entry_id)
    &&& forall|i: int, j: int|
        0 <= i < d.entries.len() && 0 <= j < d.entries.len() && i != j ==> (
        #[trigger] d.entries[i]).id != (#[trigger] d.entries[j]).id
    // libraries: normal-form rows with unique ids, referencing existing rows
    &&& forall|i: int|
        0 <= i < d.libraries.len() ==> library_row_ok(#[trigger] d.libraries[i], d.next_library_id)
    &&& forall|i: int, j: int|
        0 <= i < d.libraries.len() && 0 <= j < d.libraries.len() && i != j ==> (
        #[trigger] d.libraries[i]).id != (#[trigger] d.libraries[j]).id
    &&& forall|i: int|
        0 <= i < d.libraries.len() ==> has_login(d, (#[trigger] d.libraries[i]).login_id)
    &&& forall|i: int|
        0 <= i < d.libraries.len() ==> has_entry(d, (#[trigger] d.libraries[i]).entry_id)
    // ownership: every entry is reachable through exactly one library row
    &&& forall|i: int|
        0 <= i < d.entries.len() ==> is_linked(d, (#[trigger] d.entries[i]).id->0)
    &&& forall|i: int, j: int|
        0 <= i < d.libraries.len() && 0 <= j < d.libraries.len() && i != j ==> (
        #[trigger] d.libraries[i]).entry_id != (#[trigger] d.libraries[j]).entry_id
}

/// Whether some library row links the entry id to an owner.
pub open spec fn is_linked(d: DbV, entry_id: i32) -> bool {
    exists|i: int| 0 <= i < d.libraries.len() && (#[trigger] d.libraries[i]).entry_id == entry_id
}

/// No stored entry is orphaned: each one is reachable through a `Library`
/// row. This is the visibility half of create-atomicity.
pub open spec fn no_orphans(d: DbV) -> bool {
    forall|i: int| 0 <= i < d.entries.len() ==> is_linked(d, (#[trigger] d.entries[i]).id->0)
}

impl Db {
    /// Structural well-formedness of the store.
    pub open spec fn wf(&self) -> bool {
        db_wf(self@)
    }

    /// An empty store: no rows, counters at one, an empty clock stamp.
    pub fn new() -> (r: Db)
        ensures
            r.wf(),
            r@.logins == Seq::<LoginV>::empty(),
            r@.games == Seq::<GameV>::empty(),
            r@.entries == Seq::<EntryV>::empty(),
            r@.libraries == Seq::<LibraryV>::empty(),
            r@.next_login_id == 1,
            r@.next_game_id == 1,
            r@.next_entry_id == 1,
            r@.next_library_id == 1,
            r@.clock == Seq::<char>::empty(),
    {
        let r = Db {
            logins: Vec::new(),
            games: Vec::new(),
            entries: Vec::new(),
            libraries: Vec::new(),
            next_login_id: 1,
            next_game_id: 1,
            next_entry_id: 1,
            next_library_id: 1,
            clock: String::new(),
        };
        proof {
            assert(r@.logins =~= Seq::<LoginV>::empty());
            assert(r@.games =~= Seq::<GameV>::empty());
            assert(r@.entries =~= Seq::<EntryV>::empty());
            assert(r@.libraries =~= Seq::<LibraryV>::empty());
        }
        r
    }

    /// Replaces the wall-clock text that new rows are stamped with.
    pub fn set_clock(&mut self, clock: String)
        ensures
            final(self)@ == (DbV { clock: clock@, ..old(self)@ }),
            old(self).wf() ==> final(self).wf(),
    {
        self.clock = clock;
        proof {
            assert(self@ =~= (DbV { clock: self.clock@, ..old(self)@ }));
        }
    }

    /// Seeds one catalog game with a fresh id. Returns `None`, changing
    /// nothing, when the id space is exhausted.
    pub fn add_game(&mut self, name: String, description: String) -> (r: Option<Game>)
        requires
            old(self).wf(),
        ensures
            final(self).wf(),
            old(self).next_game_id == i32::MAX ==> r is None && final(self)@ == old(self)@,
            old(self).next_game_id < i32::MAX ==> {
                let g = GameV {
                    id: Some(old(self).next_game_id),
                    name: name@,
                    description: description@,
                };
                &&& r matches Some(game) && game@ == g
                &&& final(self)@ == (DbV {
                    games: old(self)@.games.push(g),
                    next_game_id: (old(self).next_game_id + 1) as i32,
                    ..old(self)@
                })
            },
    {
        if self.next_game_id == i32::MAX {
            proof {
                assert(self@ =~= old(self)@);
            }
            return None;
        }
        let id = self.next_game_id;
        let game = Game { id: Some(id), name, description };
        let stored = game.clone();
        self.games.push(stored);
        self.next_game_id = self.next_game_id + 1;
        proof {
            assert(self@.games =~= old(self)@.games.push(game@));
            assert(self@ =~= (DbV {
                games: old(self)@.games.push(game@),
                next_game_id: self.next_game_id,
                ..old(self)@
            }));
        }
        Some(game)
    }
}

} // verus!
