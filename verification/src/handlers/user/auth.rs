//! Logging in: the account a user gives, the tokens that prove a login,
//! and the answers of `/user/auth`.
use vstd::prelude::*;

use crate::handlers::reply::{reply, Reply, Status};
use crate::records::{RecordId, Timestamp};
use crate::text::{
    concat, debug_quoted, is_alphanumeric, owned, push_char, same_text, str_debug,
};

verus! {

/// The name and password that a user logs in with.
#[derive(Debug, PartialEq, Eq)]
pub struct Account {
    pub username: String,
    pub password: String,
}

impl Clone for Account {
    fn clone(&self) -> (r: Self)
        ensures
            r == *self,
    {
        Account { username: self.username.clone(), password: self.password.clone() }
    }
}

/// Access to the account that a value carries.
pub trait AccountField {
    fn base(&self) -> Account;
}

impl AccountField for Account {
    /// The account itself.
    fn base(&self) -> (r: Account)
        ensures
            r == *self,
    {
        self.clone()
    }
}

/// A stored login token: the token, the user it belongs to, and when it
/// was made.
#[derive(Debug)]
pub struct TokenRecord {
    pub token: String,
    pub out: RecordId,
    pub created_at: Timestamp,
}

/// A login token to store.
#[derive(Debug)]
pub struct Token {
    pub token: String,
    pub out: RecordId,
    pub created_at: Timestamp,
}

/// The number of characters in a login token.
pub const TOKEN_LENGTH: usize = 30;

/// A random ASCII letter or digit (`rand`'s `Alphanumeric` distribution,
/// drawn from the thread's generator). The contract states the set it
/// comes from; which one comes is left to chance.
#[verifier::external_body]
fn sample_alphanumeric() -> (r: u8)
    ensures
        is_alphanumeric(r as char),
{
    rand::Rng::sample(&mut rand::thread_rng(), rand::distributions::Alphanumeric)
}

/// The characters that the bytes stand for, one for each byte.
pub open spec fn bytes_as_chars(bytes: Seq<u8>) -> Seq<char> {
    bytes.map_values(|b: u8| b as char)
}

/// A token made of the given bytes, each read as the character it codes.
pub fn token_from_bytes(bytes: &Vec<u8>) -> (r: String)
    ensures
        r@ == bytes_as_chars(bytes@),
{
    let mut r = String::new();
    let mut i: usize = 0;
    while i < bytes.len()
        invariant
            i <= bytes.len(),
            r@ == bytes_as_chars(bytes@.take(i as int)),
        decreases bytes.len() - i,
    {
        push_char(&mut r, bytes[i] as char);
        assert(bytes_as_chars(bytes@.take(i + 1)) =~= bytes_as_chars(bytes@.take(i as int)).push(
            bytes@[i as int] as char,
        ));
        i += 1;
    }
    assert(bytes@.take(bytes.len() as int) =~= bytes@);
    r
}

/// A new random login token: [`TOKEN_LENGTH`] ASCII letters and digits,
/// each drawn at random.
pub fn new_token() -> (r: String)
    ensures
        r@.len() == TOKEN_LENGTH,
        forall|i: int| 0 <= i < r@.len() ==> is_alphanumeric(#[trigger] r@[i]),
{
    let mut draws: Vec<u8> = Vec::new();
    let mut i: usize = 0;
    while i < TOKEN_LENGTH
        invariant
            i <= TOKEN_LENGTH,
            draws.len() == i,
            forall|j: int| 0 <= j < draws.len() ==> is_alphanumeric((#[trigger] draws@[j]) as char),
        decreases TOKEN_LENGTH - i,
    {
        draws.push(sample_alphanumeric());
        i += 1;
    }
    token_from_bytes(&draws)
}

/// The id of the user that logged in, as the user lookup found it: the
/// record's key, or the empty text when no user has that name and
/// password.
pub fn authenticated_uid(found: Option<String>) -> (r: String)
    ensures
        match found {
            Some(id) => r@ == id@,
            None => r@.len() == 0,
        },
{
    match found {
        Some(id) => id,
        None => String::new(),
    }
}

/// The text that reports no token: "Token Not Found".
pub open spec fn token_not_found() -> Seq<char> {
    "Token Not Found"@
}

/// The query that looks up the tokens selected by the condition `search`,
/// which is written into the query in its debug form.
pub fn token_query(search: &str) -> (r: String)
    ensures
        r@ == "SELECT * FROM token WHERE "@ + str_debug(search@),
{
    let quoted = debug_quoted(search);
    concat("SELECT * FROM token WHERE ", quoted.as_str())
}

/// The JSON object `{"token": <token>, "uid": <uid>}`, each value in its
/// debug form.
pub open spec fn token_and_uid(token: Seq<char>, uid: Seq<char>) -> Seq<char> {
    "{\"token\": "@ + str_debug(token) + ", \"uid\": "@ + str_debug(uid) + "}"@
}

/// What the token lookup answers: the token and its user's id when exactly
/// one token was found, "Token Not Found" otherwise.
pub fn token_or_uid_text(records: &Vec<TokenRecord>) -> (r: String)
    ensures
        records.len() == 1 ==> r@ == token_and_uid(records[0].token@, records[0].out.id@),
        records.len() != 1 ==> r@ == token_not_found(),
{
    if records.len() == 1 {
        let token = debug_quoted(records[0].token.as_str());
        let uid = debug_quoted(records[0].out.id.as_str());
        let mut r = owned("{\"token\": ");
        r.append(token.as_str());
        r.append(", \"uid\": ");
        r.append(uid.as_str());
        r.append("}");
        r
    } else {
        owned("Token Not Found")
    }
}

/// What storing a new token answers: the token when exactly one record was
/// stored, "Error Creating Token" otherwise.
pub fn created_token_text(records: &Vec<TokenRecord>) -> (r: String)
    ensures
        records.len() == 1 ==> r@ == records[0].token@,
        records.len() != 1 ==> r@ == "Error Creating Token"@,
{
    if records.len() == 1 {
        owned(records[0].token.as_str())
    } else {
        owned("Error Creating Token")
    }
}

/// `GET /user/auth`: the lookup's answer, with status `Found`, whatever it
/// holds.
pub fn auth_get_reply(found: String) -> (r: Reply)
    ensures
        r.status == Status::Found,
        r.body@ == found@,
        r.header is None,
{
    Reply { status: Status::Found, body: found, header: None }
}

/// What `POST /user/auth` does once it has looked up the user's token.
pub enum LoginStep {
    /// The user has a token: answer with it.
    Existing(Reply),
    /// The user has none: make one.
    CreateToken,
    /// Refuse the login.
    Reject(Reply),
}

/// The next step of a login, given what the token lookup answered: an
/// existing token is returned with `Found`; when the lookup found none, a
/// new token is made. (The lookup's answer is never empty, so a login is
/// never refused here.)
pub fn login_step(found: String) -> (r: LoginStep)
    ensures
        found@ != token_not_found() ==> (r matches LoginStep::Existing(rep) && rep.status
            == Status::Found && rep.body@ == found@ && rep.header is None),
        found@ == token_not_found() ==> r is CreateToken,
        !(r is Reject),
{
    proof {
        reveal_strlit("Token Not Found");
    }
    if !same_text(found.as_str(), "Token Not Found") {
        LoginStep::Existing(Reply { status: Status::Found, body: found, header: None })
    } else if !found.as_str().is_empty() {
        LoginStep::CreateToken
    } else {
        LoginStep::Reject(reply(Status::NotFound, "Your token is invalid"))
    }
}

/// The JSON object `{"token": "<token>", "uid": <uid>}`: the token as it is
/// between quotes, the user's id in its debug form.
pub open spec fn new_login(token: Seq<char>, uid: Seq<char>) -> Seq<char> {
    "{\"token\": \""@ + token + "\", \"uid\": "@ + str_debug(uid) + "}"@
}

/// The answer to a login that made a new token.
pub fn login_created_reply(token: &str, uid: &str) -> (r: Reply)
    ensures
        r.status == Status::Created,
        r.body@ == new_login(token@, uid@),
        r.header is None,
{
    let quoted = debug_quoted(uid);
    let mut body = owned("{\"token\": \"");
    body.append(token);
    body.append("\", \"uid\": ");
    body.append(quoted.as_str());
    body.append("}");
    Reply { status: Status::Created, body, header: None }
}

} // verus!
