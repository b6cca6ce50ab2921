//! The middleware chain around every request.
//!
//! One request runs through a fixed sequence: the API-prefix check aborts
//! unprefixed requests before anything else happens; a pooled connection is
//! checked out before the handler runs and given back on every exit path;
//! the matched handler produces either a response or a terminal [`Failure`];
//! and the after-step renders a failure into the response the client sees.
//!
//! [`handle_request`] carries the two chain-level guarantees: a request
//! without the prefix gets a not-found response and the store is never
//! touched, and the pool ends every request with exactly as many free
//! connections as it started with.

use vstd::prelude::*;

use crate::error::{on_err, Failure, LibError, ResponseSpec, STATUS_BAD_REQUEST,
    STATUS_INTERNAL_SERVER_ERROR, STATUS_NOT_FOUND, STATUS_NO_CONTENT, STATUS_OK};
use crate::handlers::{get_entry, get_game_by_id, get_games, get_library, get_status,
    get_user_by_id, get_users, owned_entries, post_entry, post_login, upsert_post};
use crate::models::{Entry, EntryV, Game, Login, Status, User};
use crate::pool::{DbConnection, PooledConn};
use crate::store::{Db, StorageFaults};
use vstd::string::StrSliceExecFns;

verus! {

/// The HTTP methods the route table distinguishes.
#[derive(Clone, Copy, PartialEq, Eq, Structural, Debug)]
pub enum Method {
    Get,
    Post,
}

/// The decoded body of a request, if any. The wire format is not this
/// core's concern: the rim hands in domain values.
pub enum RequestBody {
    NoBody,
    EntryBody(Entry),
    LoginBody(Login),
}

/// An incoming request: a method, a path split into segments, and a body.
pub struct Request {
    pub method: Method,
    pub path: Vec<String>,
    pub body: RequestBody,
}

/// The body of an outgoing response: one domain value, a list of them, a
/// plain message, or nothing.
pub enum ResponseBody {
    Empty,
    Message(String),
    OneUser(User),
    ManyUsers(Vec<User>),
    OneEntry(Entry),
    ManyEntries(Vec<Entry>),
    OneGame(Game),
    ManyGames(Vec<Game>),
    Statuses(Vec<Status>),
}

/// An outgoing response: a status code and a body.
pub struct Response {
    pub status: u16,
    pub body: ResponseBody,
}

/// Whether the request's path starts with the API prefix segment.
pub open spec fn has_api_prefix(req: Request) -> bool {
    req.path@.len() > 0 && req.path@[0]@ == "api"@
}

/// Whether the prefix-stripped request addresses the create-or-update
/// engine: a POST to one user's library.
pub open spec fn is_upsert_path(req: Request) -> bool {
    &&& req.method is Post
    &&& req.path@.len() == 3
    &&& req.path@[0]@ == "user"@
    &&& req.path@[2]@ == "library"@
}

/// Whether the unstripped request addresses the create-or-update engine.
pub open spec fn is_upsert_request(req: Request) -> bool {
    &&& has_api_prefix(req)
    &&& req.method is Post
    &&& req.path@.len() == 4
    &&& req.path@[1]@ == "user"@
    &&& req.path@[3]@ == "library"@
}

/// The engine outcome a finished response stands for: the entry of a
/// successful answer, or the status code of a failed one.
pub open spec fn response_outcome(resp: Response) -> Result<EntryV, u16> {
    if resp.status == STATUS_OK {
        match resp.body {
            ResponseBody::OneEntry(e) => Ok(e@),
            _ => Err(resp.status),
        }
    } else {
        Err(resp.status)
    }
}

/// The engine outcome a routing result stands for.
pub open spec fn route_outcome(r: Result<Response, Failure>) -> Result<EntryV, u16> {
    match r {
        Ok(resp) => response_outcome(resp),
        Err(f) => Err(f.response.status),
    }
}

/// Whether the prefix-stripped request lists one user's library.
pub open spec fn is_library_path(req: Request) -> bool {
    &&& req.method is Get
    &&& req.path@.len() == 3
    &&& req.path@[0]@ == "user"@
    &&& req.path@[2]@ == "library"@
}

/// Whether the unstripped request lists one user's library.
pub open spec fn is_library_request(req: Request) -> bool {
    &&& has_api_prefix(req)
    &&& req.method is Get
    &&& req.path@.len() == 4
    &&& req.path@[1]@ == "user"@
    &&& req.path@[3]@ == "library"@
}

/// What a finished response says about one user's library: empty is
/// answered no-content, anything else is the owned entries themselves.
pub open spec fn library_listing_ok(resp: Response, es: Seq<EntryV>) -> bool {
    if es.len() == 0 {
        resp.status == STATUS_NO_CONTENT
    } else {
        &&& resp.status == STATUS_OK
        &&& resp.body matches ResponseBody::ManyEntries(list) && list@.map_values(|e: Entry| e@)
            == es
    }
}

/// The before-step that enforces the API prefix: a request without it is
/// aborted with a not-found outcome before any later step runs; with it,
/// the prefix segment is stripped and the chain continues.
pub struct Api;

impl Api {
    /// Checks and strips the prefix segment.
    pub fn before(&self, req: &mut Request) -> (r: Result<(), Failure>)
        ensures
            has_api_prefix(*old(req)) ==> {
                &&& r is Ok
                &&& final(req).method == old(req).method
                &&& final(req).body == old(req).body
                &&& final(req).path@ == old(req).path@.subrange(1, old(req).path@.len() as int)
            },
            !has_api_prefix(*old(req)) ==> (r matches Err(f) && f.response.status
                == STATUS_NOT_FOUND && *final(req) == *old(req)),
    {
        let prefixed = if req.path.len() == 0 {
            false
        } else {
            let expected: String = "api".to_owned();
            req.path[0] == expected
        };
        if !prefixed {
            let check: Result<(), LibError> = Err(LibError::Cause("Lacking api prefix".to_owned()));
            return on_err(check, ResponseSpec::of_status(STATUS_NOT_FOUND));
        }
        let _removed = req.path.remove(0);
        proof {
            assert(req.path@ =~= old(req).path@.subrange(1, old(req).path@.len() as int));
        }
        Ok(())
    }
}

/// The after-step: renders a terminal failure into the client-visible
/// response. The underlying cause stays visible in the body on purpose —
/// this chain favours debuggability over hiding details.
pub struct DebugIronError;

impl DebugIronError {
    /// The response a failure turns into: the failure's status, and its
    /// message — or, without one, its cause — as the body.
    pub fn catch(&self, err: Failure) -> (r: Response)
        ensures
            r.status == err@.response.status,
            err@.response.message matches Some(m) ==> (r.body matches ResponseBody::Message(t)
                && t@ == m),
            err@.response.message is None ==> (r.body matches ResponseBody::Message(t) && t@
                == err@.cause),
    {
        let text = match err.response.message {
            Some(m) => m,
            None => err.cause,
        };
        Response { status: err.response.status, body: ResponseBody::Message(text) }
    }
}

/// Whether the character is a decimal digit.
pub open spec fn is_digit(c: char) -> bool {
    48 <= c as u32 <= 57
}

/// The numeric value of one digit character.
pub open spec fn digit_val(c: char) -> int {
    c as u32 - 48
}

/// Whether every character of the sequence is a decimal digit.
pub open spec fn all_digits(s: Seq<char>) -> bool {
    forall|i: int| 0 <= i < s.len() ==> is_digit(#[trigger] s[i])
}

/// The value of a digit string, most significant digit first.
pub open spec fn digits_value(s: Seq<char>) -> int
    decreases s.len(),
{
    if s.len() == 0 {
        0
    } else {
        digits_value(s.drop_last()) * 10 + digit_val(s.last())
    }
}

/// Whether the text is a well-formed decimal `i32`: an optional minus sign,
/// then at least one digit, and a value within the type's range.
pub open spec fn valid_i32_text(s: Seq<char>) -> bool {
    if s.len() == 0 {
        false
    } else if s[0] == '-' {
        let d = s.subrange(1, s.len() as int);
        d.len() > 0 && all_digits(d) && digits_value(d) <= 2147483648
    } else {
        all_digits(s) && digits_value(s) <= 2147483647
    }
}

/// The value a well-formed decimal `i32` text denotes.
pub open spec fn i32_text_value(s: Seq<char>) -> int {
    if s.len() > 0 && s[0] == '-' {
        -digits_value(s.subrange(1, s.len() as int))
    } else {
        digits_value(s)
    }
}

proof fn lemma_digits_nonneg(s: Seq<char>)
    requires
        all_digits(s),
    ensures
        digits_value(s) >= 0,
    decreases s.len(),
{
    if s.len() > 0 {
        assert(all_digits(s.drop_last()));
        lemma_digits_nonneg(s.drop_last());
        assert(is_digit(s.last()));
    }
}

proof fn lemma_digits_take_step(s: Seq<char>, n: int)
    requires
        0 <= n < s.len(),
    ensures
        digits_value(s.take(n + 1)) == digits_value(s.take(n)) * 10 + digit_val(s[n]),
{
    assert(s.take(n + 1).drop_last() =~= s.take(n));
    assert(s.take(n + 1).last() == s[n]);
}

proof fn lemma_digits_prefix_le(s: Seq<char>, n: int)
    requires
        all_digits(s),
        0 <= n <= s.len(),
    ensures
        digits_value(s.take(n)) <= digits_value(s),
    decreases s.len() - n,
{
    if n == s.len() {
        assert(s.take(n) =~= s);
    } else {
        lemma_digits_take_step(s, n);
        assert(all_digits(s.take(n)));
        lemma_digits_nonneg(s.take(n));
        assert(is_digit(s[n]));
        lemma_digits_prefix_le(s, n + 1);
    }
}

/// Parses a decimal `i32` from text: `Some` exactly on well-formed text
/// within range, with the denoted value.
pub fn parse_i32(s: &str) -> (r: Option<i32>)
    ensures
        r is Some <==> valid_i32_text(s@),
        r matches Some(v) ==> v == i32_text_value(s@),
{
    let len = s.unicode_len();
    if len == 0 {
        return None;
    }
    let c0 = s.get_char(0);
    let neg = c0 == '-';
    let start: usize = if neg {
        1
    } else {
        0
    };
    if start == len {
        // a bare minus sign has no digits
        return None;
    }
    let ghost digits = if neg {
        s@.subrange(1, s@.len() as int)
    } else {
        s@
    };
    let mut acc: u64 = 0;
    let mut k: usize = start;
    while k < len
        invariant
            s@.len() == len,
            start <= k <= len,
            start == (if neg {
                1int
            } else {
                0int
            }),
            neg == (s@[0] == '-'),
            len > start,
            digits == (if neg {
                s@.subrange(1, len as int)
            } else {
                s@
            }),
            all_digits(digits.take(k - start)),
            acc == digits_value(digits.take(k - start)),
            acc <= 2147483648,
        decreases len - k,
    {
        let c = s.get_char(k);
        let cv: u32 = c as u32;
        if cv < 48 || cv > 57 {
            proof {
                assert(digits[k - start] == s@[k as int]);
                assert(!is_digit(digits[k - start]));
            }
            return None;
        }
        let d: u64 = (cv - 48) as u64;
        acc = acc * 10 + d;
        proof {
            lemma_digits_take_step(digits, k - start);
            assert(digits.take(k - start + 1).drop_last() =~= digits.take(k - start));
            assert(all_digits(digits.take(k - start + 1)));
        }
        if acc > 2147483648 {
            proof {
                if valid_i32_text(s@) {
                    assert(all_digits(digits));
                    lemma_digits_prefix_le(digits, k - start + 1);
                }
            }
            return None;
        }
        k = k + 1;
    }
    proof {
        assert(digits.take(len - start) =~= digits);
    }
    if neg {
        if acc == 2147483648 {
            Some(i32::MIN)
        } else {
            Some(0 - (acc as i32))
        }
    } else {
        if acc == 2147483648 {
            return None;
        }
        Some(acc as i32)
    }
}

/// Extracts one integer path parameter, the way a handler reads an id out
/// of the matched route: a parse failure is the client's error.
pub fn get_from_router(s: &String) -> (r: Result<i32, Failure>)
    ensures
        r matches Ok(v) ==> valid_i32_text(s@) && v == i32_text_value(s@),
        r matches Err(f) ==> !valid_i32_text(s@) && f.response.status == STATUS_BAD_REQUEST,
{
    let parsed: Result<i32, LibError> = match parse_i32(s.as_str()) {
        Some(v) => Ok(v),
        None => Err(LibError::Cause("Unable to find path".to_owned())),
    };
    on_err(parsed, ResponseSpec::of_status(STATUS_BAD_REQUEST))
}

fn seg_eq(s: &String, lit: &str) -> (r: bool)
    ensures
        r == (s@ == lit@),
{
    let expected: String = lit.to_owned();
    *s == expected
}

/// Dispatches one prefix-stripped request to its handler. An unmatched
/// path or method is a not-found failure, as a route table answers.
fn route(db: &mut Db, conn: &PooledConn, req: &Request, faults: StorageFaults) -> (r: Result<
    Response,
    Failure,
>)
    requires
        old(db).wf(),
    ensures
        final(db).wf(),
        req.method is Get ==> final(db)@ == old(db)@,
        r matches Ok(resp) ==> resp.status == STATUS_OK || resp.status == STATUS_NO_CONTENT,
        is_upsert_path(*req) ==> {
            &&& req.body is EntryBody && valid_i32_text(req.path@[1]@) ==> upsert_post(
                old(db)@,
                final(db)@,
                i32_text_value(req.path@[1]@) as i32,
                req.body->EntryBody_0@,
                faults,
                route_outcome(r),
            )
            &&& req.body is EntryBody && !valid_i32_text(req.path@[1]@) ==> (r matches Err(f)
                && f.response.status == STATUS_BAD_REQUEST && final(db)@ == old(db)@)
            &&& !(req.body is EntryBody) ==> (r matches Err(f) && f.response.status
                == STATUS_BAD_REQUEST && final(db)@ == old(db)@)
        },
        is_library_path(*req) ==> {
            &&& valid_i32_text(req.path@[1]@) ==> (r matches Ok(resp) && library_listing_ok(
                resp,
                owned_entries(old(db)@, i32_text_value(req.path@[1]@) as i32),
            ))
            &&& !valid_i32_text(req.path@[1]@) ==> (r matches Err(f) && f.response.status
                == STATUS_BAD_REQUEST)
        },
{
    let n = req.path.len();
    if n == 1 && seg_eq(&req.path[0], "user") {
        match req.method {
            Method::Get => Ok(Response {
                status: STATUS_OK,
                body: ResponseBody::ManyUsers(get_users(db, conn)),
            }),
            Method::Post => {
                let login = match &req.body {
                    RequestBody::LoginBody(login) => login,
                    _ => {
                        return Err(Failure {
                            response: ResponseSpec::of_status(STATUS_BAD_REQUEST),
                            cause: "the body does not hold a login".to_owned(),
                        });
                    },
                };
                match post_login(db, conn, login) {
                    Ok(user) => Ok(Response { status: STATUS_OK, body: ResponseBody::OneUser(user) }),
                    Err(f) => Err(f),
                }
            },
        }
    } else if n == 2 && seg_eq(&req.path[0], "user") {
        match req.method {
            Method::Get => {
                let id = match get_from_router(&req.path[1]) {
                    Ok(v) => v,
                    Err(f) => return Err(f),
                };
                match get_user_by_id(db, conn, id) {
                    Some(user) => Ok(Response {
                        status: STATUS_OK,
                        body: ResponseBody::OneUser(user),
                    }),
                    None => Ok(Response { status: STATUS_NO_CONTENT, body: ResponseBody::Empty }),
                }
            },
            Method::Post => Err(no_route()),
        }
    } else if n == 3 && seg_eq(&req.path[0], "user") && seg_eq(&req.path[2], "library") {
        let user_id = match get_from_router(&req.path[1]) {
            Ok(v) => v,
            Err(f) => return Err(f),
        };
        match req.method {
            Method::Get => {
                let entries = get_library(db, conn, user_id);
                if entries.len() == 0 {
                    Ok(Response { status: STATUS_NO_CONTENT, body: ResponseBody::Empty })
                } else {
                    Ok(Response { status: STATUS_OK, body: ResponseBody::ManyEntries(entries) })
                }
            },
            Method::Post => {
                let entry = match &req.body {
                    RequestBody::EntryBody(entry) => entry,
                    _ => {
                        return Err(Failure {
                            response: ResponseSpec::of_status(STATUS_BAD_REQUEST),
                            cause: "the body does not hold an entry".to_owned(),
                        });
                    },
                };
                match post_entry(db, conn, user_id, entry, faults) {
                    Ok(result) => Ok(Response {
                        status: STATUS_OK,
                        body: ResponseBody::OneEntry(result),
                    }),
                    Err(f) => Err(f),
                }
            },
        }
    } else if n == 4 && seg_eq(&req.path[0], "user") && seg_eq(&req.path[2], "library") {
        match req.method {
            Method::Get => {
                let user_id = match get_from_router(&req.path[1]) {
                    Ok(v) => v,
                    Err(f) => return Err(f),
                };
                let entry_id = match get_from_router(&req.path[3]) {
                    Ok(v) => v,
                    Err(f) => return Err(f),
                };
                match get_entry(db, conn, user_id, entry_id) {
                    Some(entry) => Ok(Response {
                        status: STATUS_OK,
                        body: ResponseBody::OneEntry(entry),
                    }),
                    None => Ok(Response { status: STATUS_NO_CONTENT, body: ResponseBody::Empty }),
                }
            },
            Method::Post => Err(no_route()),
        }
    } else if n == 1 && seg_eq(&req.path[0], "game") {
        match req.method {
            Method::Get => Ok(Response {
                status: STATUS_OK,
                body: ResponseBody::ManyGames(get_games(db, conn)),
            }),
            Method::Post => Err(no_route()),
        }
    } else if n == 2 && seg_eq(&req.path[0], "game") {
        match req.method {
            Method::Get => {
                let id = match get_from_router(&req.path[1]) {
                    Ok(v) => v,
                    Err(f) => return Err(f),
                };
                match get_game_by_id(db, conn, id) {
                    Some(game) => Ok(Response {
                        status: STATUS_OK,
                        body: ResponseBody::OneGame(game),
                    }),
                    None => Ok(Response { status: STATUS_NO_CONTENT, body: ResponseBody::Empty }),
                }
            },
            Method::Post => Err(no_route()),
        }
    } else if n == 1 && seg_eq(&req.path[0], "status") {
        match req.method {
            Method::Get => Ok(Response {
                status: STATUS_OK,
                body: ResponseBody::Statuses(get_status(conn)),
            }),
            Method::Post => Err(no_route()),
        }
    } else {
        Err(no_route())
    }
}

fn no_route() -> (r: Failure)
    ensures
        r.response.status == STATUS_NOT_FOUND,
{
    Failure {
        response: ResponseSpec::of_status(STATUS_NOT_FOUND),
        cause: "no route matches this path and method".to_owned(),
    }
}

/// Runs the whole middleware chain over one request.
///
/// Two guarantees hold on every path through the chain. First, a request
/// whose path lacks the API prefix is answered not-found and the store is
/// not touched — no connection is even checked out. Second, the pool ends
/// the request with exactly the free connections it started with: whatever
/// the handler did, a checked-out connection is given back exactly once.
pub fn handle_request(
    db: &mut Db,
    pool: &mut DbConnection,
    req: Request,
    faults: StorageFaults,
) -> (resp: Response)
    requires
        old(db).wf(),
        old(pool).wf(),
    ensures
        final(db).wf(),
        final(pool).wf(),
        final(pool)@ == old(pool)@,
        !has_api_prefix(req) ==> resp.status == STATUS_NOT_FOUND && final(db)@ == old(db)@,
        has_api_prefix(req) && old(pool)@.available == 0 ==> resp.status
            == STATUS_INTERNAL_SERVER_ERROR && final(db)@ == old(db)@,
        req.method is Get ==> final(db)@ == old(db)@,
        is_upsert_request(req) && old(pool)@.available > 0 ==> {
            &&& req.body is EntryBody && valid_i32_text(req.path@[2]@) ==> upsert_post(
                old(db)@,
                final(db)@,
                i32_text_value(req.path@[2]@) as i32,
                req.body->EntryBody_0@,
                faults,
                response_outcome(resp),
            )
            &&& req.body is EntryBody && !valid_i32_text(req.path@[2]@) ==> resp.status
                == STATUS_BAD_REQUEST && final(db)@ == old(db)@
            &&& !(req.body is EntryBody) ==> resp.status == STATUS_BAD_REQUEST && final(db)@
                == old(db)@
        },
        is_library_request(req) && old(pool)@.available > 0 ==> {
            &&& valid_i32_text(req.path@[2]@) ==> library_listing_ok(
                resp,
                owned_entries(old(db)@, i32_text_value(req.path@[2]@) as i32),
            )
            &&& !valid_i32_text(req.path@[2]@) ==> resp.status == STATUS_BAD_REQUEST
        },
{
    let mut req = req;
    let api = Api;
    let after = DebugIronError;
    match api.before(&mut req) {
        Err(f) => {
            return after.catch(f);
        },
        Ok(()) => {},
    }
    let conn = match pool.checkout() {
        Some(c) => c,
        None => {
            return after.catch(Failure {
                response: ResponseSpec::of_status(STATUS_INTERNAL_SERVER_ERROR),
                cause: "no pooled connection became available".to_owned(),
            });
        },
    };
    let result = route(db, &conn, &req, faults);
    pool.release(conn);
    match result {
        Ok(resp) => resp,
        Err(f) => after.catch(f),
    }
}

} // verus!
