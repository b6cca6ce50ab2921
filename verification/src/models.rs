//! Domain types of the backlog service and their mathematical views.
//!
//! Each executable type has a ghost view (`LoginV`, `UserV`, ...) in which
//! every `String` is replaced by its character sequence, so that contracts can
//! speak about values rather than heap objects.

use vstd::prelude::*;

verus! {

/// A registered account, including the password. It is created once at
/// registration and never mutated afterwards.
#[derive(Debug, PartialEq)]
pub struct Login {
    pub id: Option<i32>,
    pub username: String,
    pub password: String,
    pub email: String,
}

/// The public projection of a `Login`: everything but the password.
#[derive(Debug, PartialEq)]
pub struct User {
    pub id: Option<i32>,
    pub username: String,
    pub email: String,
}

/// The ownership join: links one `Login` to one `Entry`. The embedded
/// `user`/`entry` fields exist for lazily attached values and are never
/// populated by the storage layer.
#[derive(Debug, PartialEq)]
pub struct Library {
    pub id: Option<i32>,
    pub login_id: i32,
    pub entry_id: i32,
    pub user: Option<User>,
    pub entry: Option<Entry>,
}

/// A play-tracking record for one game in one user's backlog.
///
/// `time_played` counts hundredths of an hour, so that the stored amount is
/// exact; the unverified rim converts to fractional hours at the wire.
/// `game` is a lazily attached catalog value, never persisted.
#[derive(Debug, PartialEq)]
pub struct Entry {
    pub id: Option<i32>,
    pub game_id: Option<i32>,
    pub time_played: Option<u32>,
    pub last_update: Option<String>,
    pub status: Option<Status>,
    pub game: Option<Game>,
}

/// The closed play-state enumeration, persisted as its literal tag name in a
/// database-side enumerated text type.
#[derive(Clone, Copy, PartialEq, Eq, Structural, Debug)]
pub enum Status {
    Frozen,
    CurrentlyPlaying,
    Dropped,
    PlanToPlay,
}

/// A catalog entry; read-only from this core's perspective.
#[derive(Debug, PartialEq)]
pub struct Game {
    pub id: Option<i32>,
    pub name: String,
    pub description: String,
}

/// View of `Login`.
pub ghost struct LoginV {
    pub id: Option<i32>,
    pub username: Seq<char>,
    pub password: Seq<char>,
    pub email: Seq<char>,
}

/// View of `User`.
pub ghost struct UserV {
    pub id: Option<i32>,
    pub username: Seq<char>,
    pub email: Seq<char>,
}

/// View of `Library`.
pub ghost struct LibraryV {
    pub id: Option<i32>,
    pub login_id: i32,
    pub entry_id: i32,
    pub user: Option<UserV>,
    pub entry: Option<EntryV>,
}

/// View of `Entry`.
pub ghost struct EntryV {
    pub id: Option<i32>,
    pub game_id: Option<i32>,
    pub time_played: Option<u32>,
    pub last_update: Option<Seq<char>>,
    pub status: Option<Status>,
    pub game: Option<GameV>,
}

/// View of `Game`.
pub ghost struct GameV {
    pub id: Option<i32>,
    pub name: Seq<char>,
    pub description: Seq<char>,
}

impl View for Login {
    type V = LoginV;

    open spec fn view(&self) -> LoginV {
        LoginV {
            id: self.id,
            username: self.username@,
            password: self.password@,
            email: self.email@,
        }
    }
}

impl View for User {
    type V = UserV;

    open spec fn view(&self) -> UserV {
        UserV { id: self.id, username: self.username@, email: self.email@ }
    }
}

impl View for Library {
    type V = LibraryV;

    open spec fn view(&self) -> LibraryV {
        LibraryV {
            id: self.id,
            login_id: self.login_id,
            entry_id: self.entry_id,
            user: match self.user {
                Some(u) => Some(u@),
                None => None,
            },
            entry: match self.entry {
                Some(e) => Some(e@),
                None => None,
            },
        }
    }
}

impl View for Entry {
    type V = EntryV;

    open spec fn view(&self) -> EntryV {
        EntryV {
            id: self.id,
            game_id: self.game_id,
            time_played: self.time_played,
            last_update: match self.last_update {
                Some(s) => Some(s@),
                None => None,
            },
            status: self.status,
            game: match self.game {
                Some(g) => Some(g@),
                None => None,
            },
        }
    }
}

impl View for Game {
    type V = GameV;

    open spec fn view(&self) -> GameV {
        GameV { id: self.id, name: self.name@, description: self.description@ }
    }
}

impl Clone for Login {
    fn clone(&self) -> (r: Self)
        ensures
            r@ == self@,
    {
        Login {
            id: self.id,
            username: self.username.clone(),
            password: self.password.clone(),
            email: self.email.clone(),
        }
    }
}

impl Clone for User {
    fn clone(&self) -> (r: Self)
        ensures
            r@ == self@,
    {
        User { id: self.id, username: self.username.clone(), email: self.email.clone() }
    }
}

impl Clone for Game {
    fn clone(&self) -> (r: Self)
        ensures
            r@ == self@,
    {
        Game { id: self.id, name: self.name.clone(), description: self.description.clone() }
    }
}

impl Clone for Entry {
    fn clone(&self) -> (r: Self)
        ensures
            r@ == self@,
    {
        Entry {
            id: self.id,
            game_id: self.game_id,
            time_played: self.time_played,
            last_update: match &self.last_update {
                Some(s) => Some(s.clone()),
                None => None,
            },
            status: self.status,
            game: match &self.game {
                Some(g) => Some(g.clone()),
                None => None,
            },
        }
    }
}

impl Clone for Library {
    fn clone(&self) -> (r: Self)
        ensures
            r@ == self@,
    {
        Library {
            id: self.id,
            login_id: self.login_id,
            entry_id: self.entry_id,
            user: match &self.user {
                Some(u) => Some(u.clone()),
                None => None,
            },
            entry: match &self.entry {
                Some(e) => Some(e.clone()),
                None => None,
            },
        }
    }
}

impl Login {
    /// The public projection: the same account without the password.
    pub fn to_user(&self) -> (r: User)
        ensures
            r@ == (UserV { id: self@.id, username: self@.username, email: self@.email }),
    {
        User { id: self.id, username: self.username.clone(), email: self.email.clone() }
    }
}

} // verus!
