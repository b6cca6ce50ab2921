//! The row codec: domain values in and out of raw relational rows.
//!
//! A raw [`Row`] is a list of positional columns, each carrying the column's
//! declared type and its data. Decoding reads columns in a fixed,
//! type-specific order. Two failure kinds are kept apart on purpose: a
//! [`CodecError::TypeMismatch`] says the column's declared type is not the
//! expected one — a schema or query bug — while a [`CodecError::WrongValue`]
//! says the declared type was right but the stored content does not parse —
//! corrupt data. A caller reasoning about failure causes can tell the two
//! apart.

use vstd::prelude::*;

use crate::models::{Entry, EntryV, Game, GameV, Library, LibraryV, Login, LoginV, Status, User,
    UserV};
use vstd::string::StringExecFns;

verus! {

/// The declared type of a column: the few built-ins this schema uses, or a
/// database-side custom type under its name.
pub enum SqlType {
    Int4,
    Numeric,
    Varchar,
    Timestamp,
    TimestampTz,
    Other(String),
}

/// The data one column carries. A timestamp is seconds and nanoseconds since
/// the epoch; a custom enumerated type carries its literal tag text.
pub enum SqlData {
    Int(i32),
    Num(u32),
    Text(String),
    Time(i64, u32),
    Null,
}

/// One positional column of a raw row.
pub struct Col {
    pub ty: SqlType,
    pub data: SqlData,
}

/// One raw relational row.
pub struct Row {
    pub cols: Vec<Col>,
}

/// Why a decode or encode failed. The two kinds stay distinguishable: a type
/// mismatch points at the schema or the query, a wrong value at the stored
/// content.
#[derive(Clone, Copy, PartialEq, Eq, Structural, Debug)]
pub enum CodecError {
    TypeMismatch,
    WrongValue,
}

/// Reading a required 32-bit integer column.
pub open spec fn spec_col_i32(c: Col) -> Result<i32, CodecError> {
    match c.ty {
        SqlType::Int4 => match c.data {
            SqlData::Int(v) => Ok(v),
            _ => Err(CodecError::WrongValue),
        },
        _ => Err(CodecError::TypeMismatch),
    }
}

/// Reading a required text column.
pub open spec fn spec_col_text(c: Col) -> Result<Seq<char>, CodecError> {
    match c.ty {
        SqlType::Varchar => match c.data {
            SqlData::Text(s) => Ok(s@),
            _ => Err(CodecError::WrongValue),
        },
        _ => Err(CodecError::TypeMismatch),
    }
}

/// Reading a nullable numeric column.
pub open spec fn spec_col_opt_num(c: Col) -> Result<Option<u32>, CodecError> {
    match c.ty {
        SqlType::Numeric => match c.data {
            SqlData::Num(v) => Ok(Some(v)),
            SqlData::Null => Ok(None),
            _ => Err(CodecError::WrongValue),
        },
        _ => Err(CodecError::TypeMismatch),
    }
}

/// Reading a required timestamp column, as raw seconds and nanoseconds.
pub open spec fn spec_col_time(c: Col) -> Result<(i64, u32), CodecError> {
    match c.ty {
        SqlType::Timestamp => match c.data {
            SqlData::Time(s, n) => Ok((s, n)),
            _ => Err(CodecError::WrongValue),
        },
        SqlType::TimestampTz => match c.data {
            SqlData::Time(s, n) => Ok((s, n)),
            _ => Err(CodecError::WrongValue),
        },
        _ => Err(CodecError::TypeMismatch),
    }
}

fn col_i32(c: &Col) -> (r: Result<i32, CodecError>)
    ensures
        r == spec_col_i32(*c),
{
    match &c.ty {
        SqlType::Int4 => match &c.data {
            SqlData::Int(v) => Ok(*v),
            _ => Err(CodecError::WrongValue),
        },
        _ => Err(CodecError::TypeMismatch),
    }
}

fn col_text(c: &Col) -> (r: Result<String, CodecError>)
    ensures
        r matches Ok(s) ==> spec_col_text(*c) matches Ok(w) && s@ == w,
        r matches Err(e) ==> spec_col_text(*c) == Err::<Seq<char>, CodecError>(e),
{
    match &c.ty {
        SqlType::Varchar => match &c.data {
            SqlData::Text(s) => Ok(s.clone()),
            _ => Err(CodecError::WrongValue),
        },
        _ => Err(CodecError::TypeMismatch),
    }
}

fn col_opt_num(c: &Col) -> (r: Result<Option<u32>, CodecError>)
    ensures
        r == spec_col_opt_num(*c),
{
    match &c.ty {
        SqlType::Numeric => match &c.data {
            SqlData::Num(v) => Ok(Some(*v)),
            SqlData::Null => Ok(None),
            _ => Err(CodecError::WrongValue),
        },
        _ => Err(CodecError::TypeMismatch),
    }
}

fn col_time(c: &Col) -> (r: Result<(i64, u32), CodecError>)
    ensures
        r == spec_col_time(*c),
{
    match &c.ty {
        SqlType::Timestamp => match &c.data {
            SqlData::Time(s, n) => Ok((*s, *n)),
            _ => Err(CodecError::WrongValue),
        },
        SqlType::TimestampTz => match &c.data {
            SqlData::Time(s, n) => Ok((*s, *n)),
            _ => Err(CodecError::WrongValue),
        },
        _ => Err(CodecError::TypeMismatch),
    }
}

impl Status {
    /// The literal tag under which this value is persisted.
    pub open spec fn tag(self) -> Seq<char> {
        match self {
            Status::Frozen => "Frozen"@,
            Status::CurrentlyPlaying => "CurrentlyPlaying"@,
            Status::Dropped => "Dropped"@,
            Status::PlanToPlay => "PlanToPlay"@,
        }
    }

    /// Whether the column's declared type is the custom enumerated type this
    /// codec expects.
    pub open spec fn accepts_spec(ty: SqlType) -> bool {
        ty matches SqlType::Other(n) && n@ == "status"@
    }

    /// The decode of one status column: first the declared type must match,
    /// then the tag text must be one of the four known tags.
    pub open spec fn spec_from_sql(ty: SqlType, raw: Seq<char>) -> Result<Status, CodecError> {
        if !Status::accepts_spec(ty) {
            Err(CodecError::TypeMismatch)
        } else if raw == "Frozen"@ {
            Ok(Status::Frozen)
        } else if raw == "CurrentlyPlaying"@ {
            Ok(Status::CurrentlyPlaying)
        } else if raw == "Dropped"@ {
            Ok(Status::Dropped)
        } else if raw == "PlanToPlay"@ {
            Ok(Status::PlanToPlay)
        } else {
            Err(CodecError::WrongValue)
        }
    }

    /// Whether the declared column type matches the expected custom type.
    pub fn accepts(ty: &SqlType) -> (r: bool)
        ensures
            r == Status::accepts_spec(*ty),
    {
        match ty {
            SqlType::Other(n) => {
                let expected: String = "status".to_owned();
                *n == expected
            },
            _ => false,
        }
    }

    /// Decodes one status column from its declared type and raw tag text.
    pub fn from_sql(ty: &SqlType, raw: &String) -> (r: Result<Status, CodecError>)
        ensures
            r == Status::spec_from_sql(*ty, raw@),
    {
        if !Status::accepts(ty) {
            return Err(CodecError::TypeMismatch);
        }
        if *raw == "Frozen".to_owned() {
            Ok(Status::Frozen)
        } else if *raw == "CurrentlyPlaying".to_owned() {
            Ok(Status::CurrentlyPlaying)
        } else if *raw == "Dropped".to_owned() {
            Ok(Status::Dropped)
        } else if *raw == "PlanToPlay".to_owned() {
            Ok(Status::PlanToPlay)
        } else {
            Err(CodecError::WrongValue)
        }
    }

    /// Encodes this value for one status column: the same type check as the
    /// decode, then the literal tag is appended to the output.
    pub fn to_sql(&self, ty: &SqlType, out: &mut String) -> (r: Result<(), CodecError>)
        ensures
            !Status::accepts_spec(*ty) ==> r == Err::<(), CodecError>(CodecError::TypeMismatch)
                && final(out)@ == old(out)@,
            Status::accepts_spec(*ty) ==> r == Ok::<(), CodecError>(()) && final(out)@ == old(out)@
                + self.tag(),
    {
        if !Status::accepts(ty) {
            return Err(CodecError::TypeMismatch);
        }
        match self {
            Status::Frozen => out.append("Frozen"),
            Status::CurrentlyPlaying => out.append("CurrentlyPlaying"),
            Status::Dropped => out.append("Dropped"),
            Status::PlanToPlay => out.append("PlanToPlay"),
        }
        Ok(())
    }
}

/// Encoding then decoding any status tag through a matching column type
/// returns the original value: the codec loses nothing on the round trip.
pub proof fn lemma_status_round_trip(s: Status, ty: SqlType)
    requires
        Status::accepts_spec(ty),
    ensures
        Status::spec_from_sql(ty, s.tag()) == Ok::<Status, CodecError>(s),
{
    reveal_strlit("Frozen");
    reveal_strlit("CurrentlyPlaying");
    reveal_strlit("Dropped");
    reveal_strlit("PlanToPlay");
    assert("Frozen"@.len() == 6);
    assert("CurrentlyPlaying"@.len() == 16);
    assert("Dropped"@.len() == 7);
    assert("PlanToPlay"@.len() == 10);
}

/// The status column of a raw row: the declared type must be the custom
/// enumerated type and the data its tag text.
pub open spec fn spec_col_status(c: Col) -> Result<Status, CodecError> {
    if !Status::accepts_spec(c.ty) {
        Err(CodecError::TypeMismatch)
    } else {
        match c.data {
            SqlData::Text(s) => Status::spec_from_sql(c.ty, s@),
            _ => Err(CodecError::WrongValue),
        }
    }
}

fn col_status(c: &Col) -> (r: Result<Status, CodecError>)
    ensures
        r == spec_col_status(*c),
{
    if !Status::accepts(&c.ty) {
        return Err(CodecError::TypeMismatch);
    }
    match &c.data {
        SqlData::Text(s) => Status::from_sql(&c.ty, s),
        _ => Err(CodecError::WrongValue),
    }
}

/// A name for what chrono renders a UTC timestamp as: the text depends on
/// the seconds and nanoseconds alone, and is absent exactly when they lie
/// outside the representable range.
pub uninterp spec fn utc_repr(secs: i64, nsecs: u32) -> Option<Seq<char>>;

/// Relies on `chrono::DateTime::<Utc>::from_timestamp` and the `Debug`
/// rendering of the resulting instant: both are functions of the two
/// arguments alone, and `from_timestamp` returns `None` exactly on an
/// out-of-range number of seconds or an invalid nanosecond.
#[verifier::external_body]
fn format_utc(secs: i64, nsecs: u32) -> (r: Option<String>)
    ensures
        r is Some <==> utc_repr(secs, nsecs) is Some,
        r matches Some(s) ==> s@ == utc_repr(secs, nsecs)->0,
{
    chrono::DateTime::<chrono::Utc>::from_timestamp(secs, nsecs).map(|dt| format!("{:?}", dt))
}

/// A UTC instant as the raw timestamp the storage layer delivers: seconds
/// and nanoseconds since the epoch. Rendering it as text is delegated to
/// the calendar library; everything else about it is plain arithmetic.
#[derive(Clone, Copy, PartialEq, Eq, Structural, Debug)]
pub struct UtcString {
    pub secs: i64,
    pub nsecs: u32,
}

impl UtcString {
    /// Whether the column's declared type is one of the timestamp types.
    pub open spec fn accepts_spec(ty: SqlType) -> bool {
        ty is Timestamp || ty is TimestampTz
    }

    /// Decodes one timestamp column.
    pub fn from_sql(ty: &SqlType, c: &Col) -> (r: Result<UtcString, CodecError>)
        requires
            c.ty == *ty,
        ensures
            r matches Ok(u) ==> spec_col_time(*c) == Ok::<(i64, u32), CodecError>((u.secs, u.nsecs)),
            r matches Err(e) ==> spec_col_time(*c) == Err::<(i64, u32), CodecError>(e),
    {
        match col_time(c) {
            Ok((secs, nsecs)) => Ok(UtcString { secs, nsecs }),
            Err(e) => Err(e),
        }
    }

    /// Renders the instant as text; `None` when the calendar library cannot
    /// represent it.
    pub fn to_string_repr(&self) -> (r: Option<String>)
        ensures
            r is Some <==> utc_repr(self.secs, self.nsecs) is Some,
            r matches Some(s) ==> s@ == utc_repr(self.secs, self.nsecs)->0,
    {
        format_utc(self.secs, self.nsecs)
    }
}

/// A type that can be decoded from one raw relational row by reading
/// positional columns in a fixed, type-specific order.
pub trait FromSqlRow: View + Sized {
    /// The decode, as a value-level function of the raw row.
    spec fn spec_from_sql_row(row: Row) -> Result<Self::V, CodecError>;

    /// Decodes one raw row.
    fn from_sql_row(row: &Row) -> (r: Result<Self, CodecError>)
        ensures
            r matches Ok(v) ==> (Self::spec_from_sql_row(*row) matches Ok(w) && v@ == w),
            r matches Err(e) ==> Self::spec_from_sql_row(*row) == Err::<Self::V, CodecError>(e),
    ;
}

impl FromSqlRow for User {
    /// Columns: id, username, (password, unread), email.
    open spec fn spec_from_sql_row(row: Row) -> Result<UserV, CodecError> {
        if row.cols.len() < 4 {
            Err(CodecError::TypeMismatch)
        } else {
            match spec_col_i32(row.cols[0]) {
                Err(e) => Err(e),
                Ok(id) => match spec_col_text(row.cols[1]) {
                    Err(e) => Err(e),
                    Ok(username) => match spec_col_text(row.cols[3]) {
                        Err(e) => Err(e),
                        Ok(email) => Ok(UserV { id: Some(id), username, email }),
                    },
                },
            }
        }
    }

    fn from_sql_row(row: &Row) -> (r: Result<User, CodecError>) {
        if row.cols.len() < 4 {
            return Err(CodecError::TypeMismatch);
        }
        let id = match col_i32(&row.cols[0]) {
            Ok(v) => v,
            Err(e) => return Err(e),
        };
        let username = match col_text(&row.cols[1]) {
            Ok(v) => v,
            Err(e) => return Err(e),
        };
        let email = match col_text(&row.cols[3]) {
            Ok(v) => v,
            Err(e) => return Err(e),
        };
        Ok(User { id: Some(id), username, email })
    }
}

impl FromSqlRow for Login {
    /// Columns: id, username, password, email.
    open spec fn spec_from_sql_row(row: Row) -> Result<LoginV, CodecError> {
        if row.cols.len() < 4 {
            Err(CodecError::TypeMismatch)
        } else {
            match spec_col_i32(row.cols[0]) {
                Err(e) => Err(e),
                Ok(id) => match spec_col_text(row.cols[1]) {
                    Err(e) => Err(e),
                    Ok(username) => match spec_col_text(row.cols[2]) {
                        Err(e) => Err(e),
                        Ok(password) => match spec_col_text(row.cols[3]) {
                            Err(e) => Err(e),
                            Ok(email) => Ok(LoginV { id: Some(id), username, password, email }),
                        },
                    },
                },
            }
        }
    }

    fn from_sql_row(row: &Row) -> (r: Result<Login, CodecError>) {
        if row.cols.len() < 4 {
            return Err(CodecError::TypeMismatch);
        }
        let id = match col_i32(&row.cols[0]) {
            Ok(v) => v,
            Err(e) => return Err(e),
        };
        let username = match col_text(&row.cols[1]) {
            Ok(v) => v,
            Err(e) => return Err(e),
        };
        let password = match col_text(&row.cols[2]) {
            Ok(v) => v,
            Err(e) => return Err(e),
        };
        let email = match col_text(&row.cols[3]) {
            Ok(v) => v,
            Err(e) => return Err(e),
        };
        Ok(Login { id: Some(id), username, password, email })
    }
}

impl FromSqlRow for Library {
    /// Columns: id, login id, entry id. The embedded values stay unset.
    open spec fn spec_from_sql_row(row: Row) -> Result<LibraryV, CodecError> {
        if row.cols.len() < 3 {
            Err(CodecError::TypeMismatch)
        } else {
            match spec_col_i32(row.cols[0]) {
                Err(e) => Err(e),
                Ok(id) => match spec_col_i32(row.cols[1]) {
                    Err(e) => Err(e),
                    Ok(login_id) => match spec_col_i32(row.cols[2]) {
                        Err(e) => Err(e),
                        Ok(entry_id) => Ok(LibraryV {
                            id: Some(id),
                            login_id,
                            entry_id,
                            user: None,
                            entry: None,
                        }),
                    },
                },
            }
        }
    }

    fn from_sql_row(row: &Row) -> (r: Result<Library, CodecError>) {
        if row.cols.len() < 3 {
            return Err(CodecError::TypeMismatch);
        }
        let id = match col_i32(&row.cols[0]) {
            Ok(v) => v,
            Err(e) => return Err(e),
        };
        let login_id = match col_i32(&row.cols[1]) {
            Ok(v) => v,
            Err(e) => return Err(e),
        };
        let entry_id = match col_i32(&row.cols[2]) {
            Ok(v) => v,
            Err(e) => return Err(e),
        };
        Ok(Library { id: Some(id), login_id, entry_id, user: None, entry: None })
    }
}

impl FromSqlRow for Game {
    /// Columns: id, name, description.
    open spec fn spec_from_sql_row(row: Row) -> Result<GameV, CodecError> {
        if row.cols.len() < 3 {
            Err(CodecError::TypeMismatch)
        } else {
            match spec_col_i32(row.cols[0]) {
                Err(e) => Err(e),
                Ok(id) => match spec_col_text(row.cols[1]) {
                    Err(e) => Err(e),
                    Ok(name) => match spec_col_text(row.cols[2]) {
                        Err(e) => Err(e),
                        Ok(description) => Ok(GameV { id: Some(id), name, description }),
                    },
                },
            }
        }
    }

    fn from_sql_row(row: &Row) -> (r: Result<Game, CodecError>) {
        if row.cols.len() < 3 {
            return Err(CodecError::TypeMismatch);
        }
        let id = match col_i32(&row.cols[0]) {
            Ok(v) => v,
            Err(e) => return Err(e),
        };
        let name = match col_text(&row.cols[1]) {
            Ok(v) => v,
            Err(e) => return Err(e),
        };
        let description = match col_text(&row.cols[2]) {
            Ok(v) => v,
            Err(e) => return Err(e),
        };
        Ok(Game { id: Some(id), name, description })
    }
}

impl FromSqlRow for Entry {
    /// Columns: id, game id, play time (nullable), last update, status. The
    /// timestamp is rendered as text while decoding; an instant the calendar
    /// library cannot represent is corrupt data, not a type mismatch.
    open spec fn spec_from_sql_row(row: Row) -> Result<EntryV, CodecError> {
        if row.cols.len() < 5 {
            Err(CodecError::TypeMismatch)
        } else {
            match spec_col_i32(row.cols[0]) {
                Err(e) => Err(e),
                Ok(id) => match spec_col_i32(row.cols[1]) {
                    Err(e) => Err(e),
                    Ok(game_id) => match spec_col_opt_num(row.cols[2]) {
                        Err(e) => Err(e),
                        Ok(time_played) => match spec_col_time(row.cols[3]) {
                            Err(e) => Err(e),
                            Ok((secs, nsecs)) => match spec_col_status(row.cols[4]) {
                                Err(e) => Err(e),
                                Ok(status) => match utc_repr(secs, nsecs) {
                                    None => Err(CodecError::WrongValue),
                                    Some(last_update) => Ok(EntryV {
                                        id: Some(id),
                                        game_id: Some(game_id),
                                        time_played,
                                        last_update: Some(last_update),
                                        status: Some(status),
                                        game: None,
                                    }),
                                },
                            },
                        },
                    },
                },
            }
        }
    }

    fn from_sql_row(row: &Row) -> (r: Result<Entry, CodecError>) {
        if row.cols.len() < 5 {
            return Err(CodecError::TypeMismatch);
        }
        let id = match col_i32(&row.cols[0]) {
            Ok(v) => v,
            Err(e) => return Err(e),
        };
        let game_id = match col_i32(&row.cols[1]) {
            Ok(v) => v,
            Err(e) => return Err(e),
        };
        let time_played = match col_opt_num(&row.cols[2]) {
            Ok(v) => v,
            Err(e) => return Err(e),
        };
        let (secs, nsecs) = match col_time(&row.cols[3]) {
            Ok(v) => v,
            Err(e) => return Err(e),
        };
        let status = match col_status(&row.cols[4]) {
            Ok(v) => v,
            Err(e) => return Err(e),
        };
        let stamp = UtcString { secs, nsecs };
        let last_update = match stamp.to_string_repr() {
            Some(s) => s,
            None => return Err(CodecError::WrongValue),
        };
        Ok(Entry {
            id: Some(id),
            game_id: Some(game_id),
            time_played,
            last_update: Some(last_update),
            status: Some(status),
            game: None,
        })
    }
}

/// Decodes a whole query result, row by row, like `collect` over an
/// iterator of rows: all rows decode, or the first failure is reported.
pub fn collect_sql<T: FromSqlRow>(rows: &Vec<Row>) -> (r: Result<Vec<T>, CodecError>)
    ensures
        r matches Ok(v) ==> v@.len() == rows@.len() && forall|i: int|
            0 <= i < v@.len() ==> T::spec_from_sql_row(rows@[i]) == Ok::<T::V, CodecError>((
            #[trigger] v@[i])@),
        r matches Err(e) ==> exists|i: int|
            0 <= i < rows@.len() && T::spec_from_sql_row(#[trigger] rows@[i]) == Err::<
                T::V,
                CodecError,
            >(e),
{
    let n = rows.len();
    let mut out: Vec<T> = Vec::new();
    let mut k: usize = 0;
    while k < n
        invariant
            n == rows.len(),
            k <= n,
            out@.len() == k,
            forall|i: int|
                0 <= i < k ==> T::spec_from_sql_row(rows@[i]) == Ok::<T::V, CodecError>((
                #[trigger] out@[i])@),
        decreases n - k,
    {
        match T::from_sql_row(&rows[k]) {
            Ok(v) => {
                proof {
                    assert(T::spec_from_sql_row(rows@[k as int]) == Ok::<T::V, CodecError>(v@));
                }
                let ghost prev = out@;
                out.push(v);
                proof {
                    assert(out@ == prev.push(v));
                    assert forall|i: int|
                        0 <= i < k + 1 implies T::spec_from_sql_row(rows@[i]) == Ok::<
                        T::V,
                        CodecError,
                    >((#[trigger] out@[i])@) by {
                        if i < k {
                            assert(out@[i] == prev[i]);
                        } else {
                            assert(out@[i] == v);
                        }
                    }
                }
            },
            Err(e) => {
                proof {
                    assert(T::spec_from_sql_row(rows@[k as int]) == Err::<T::V, CodecError>(e));
                }
                return Err(e);
            },
        }
        k = k + 1;
    }
    Ok(out)
}

} // verus!
