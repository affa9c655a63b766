//! The user record, the rule that an e-mail address must follow, and the
//! defaults that a new user gets.
use vstd::prelude::*;

use crate::records::{clock_reading, now, RecordId, Timestamp};
use crate::text::{chars_of, is_alphanumeric, owned};

verus! {

/// What a user may do.
#[derive(Debug, Clone, Copy, PartialEq, Eq, Structural)]
pub struct UserPermission {
    pub grade: u8,
    pub read: bool,
    pub write: bool,
    pub update: bool,
    pub delete: bool,
}

/// A user's first and last name.
#[derive(Debug, PartialEq, Eq)]
pub struct UserName {
    pub first: String,
    pub last: String,
}

impl Clone for UserName {
    fn clone(&self) -> (r: Self)
        ensures
            r == *self,
    {
        UserName { first: self.first.clone(), last: self.last.clone() }
    }
}

/// A user account.
#[derive(Debug, PartialEq, Eq)]
pub struct Users {
    pub username: String,
    pub name: UserName,
    pub email: String,
    pub password: String,
    pub status: bool,
    pub role: Option<String>,
    pub permission: Option<UserPermission>,
}

impl Clone for Users {
    fn clone(&self) -> (r: Self)
        ensures
            r == *self,
    {
        Users {
            username: self.username.clone(),
            name: self.name.clone(),
            email: self.email.clone(),
            password: self.password.clone(),
            status: self.status,
            role: self.role.clone(),
            permission: self.permission,
        }
    }
}

/// A new user as it is stored, with the times of its creation.
#[derive(Debug)]
pub struct UsersCreate {
    pub base: Users,
    pub updated_at: Timestamp,
    pub created_at: Timestamp,
}

/// A change to a user, with the time of the change.
#[derive(Debug)]
pub struct UsersUpdate {
    pub base: Users,
    pub updated_at: Timestamp,
}

/// A stored user.
#[derive(Debug)]
pub struct UsersRecord {
    pub id: RecordId,
    pub base: Users,
    pub updated_at: Timestamp,
    pub created_at: Timestamp,
}

/// A character allowed before the '@' of an e-mail address.
pub open spec fn is_local_char(c: char) -> bool {
    is_alphanumeric(c) || c == '.' || c == '_' || c == '%' || c == '+' || c == '-'
}

/// A character allowed between the '@' and the last '.' of an address.
pub open spec fn is_domain_char(c: char) -> bool {
    is_alphanumeric(c) || c == '.' || c == '-'
}

/// An ASCII letter.
pub open spec fn is_letter(c: char) -> bool {
    ('a' <= c && c <= 'z') || ('A' <= c && c <= 'Z')
}

/// `s` splits into a local part, '@' at `at`, a domain part, '.' at `dot`,
/// and a top-level domain of at least two letters.
pub open spec fn email_split(s: Seq<char>, at: int, dot: int) -> bool {
    &&& 1 <= at
    &&& at + 1 < dot
    &&& dot + 2 < s.len()
    &&& s[at] == '@'
    &&& s[dot] == '.'
    &&& forall|i: int| 0 <= i < at ==> is_local_char(#[trigger] s[i])
    &&& forall|i: int| at < i < dot ==> is_domain_char(#[trigger] s[i])
    &&& forall|i: int| dot < i < s.len() ==> is_letter(#[trigger] s[i])
}

/// `s` is an e-mail address of the form
/// `^[a-zA-Z0-9._%+-]+@[a-zA-Z0-9.-]+\.[a-zA-Z]{2,}$`.
pub open spec fn valid_email(s: Seq<char>) -> bool {
    exists|at: int, dot: int| email_split(s, at, dot)
}

fn local_char(c: char) -> (r: bool)
    ensures
        r == is_local_char(c),
{
    ('a' <= c && c <= 'z') || ('A' <= c && c <= 'Z') || ('0' <= c && c <= '9') || c == '.' || c
        == '_' || c == '%' || c == '+' || c == '-'
}

fn domain_char(c: char) -> (r: bool)
    ensures
        r == is_domain_char(c),
{
    ('a' <= c && c <= 'z') || ('A' <= c && c <= 'Z') || ('0' <= c && c <= '9') || c == '.' || c
        == '-'
}

fn letter(c: char) -> (r: bool)
    ensures
        r == is_letter(c),
{
    ('a' <= c && c <= 'z') || ('A' <= c && c <= 'Z')
}

/// Whether `email` is a well-formed e-mail address (see [`valid_email`]).
pub fn is_valid_email(email: &str) -> (r: bool)
    ensures
        r == valid_email(email@),
{
    let cs = chars_of(email);
    let n = cs.len();
    let ghost s = email@;
    // The local part runs up to the first '@'.
    let mut at: usize = 0;
    while at < n && cs[at] != '@'
        invariant
            s == email@,
            cs@ == s,
            n == cs.len(),
            at <= n,
            forall|i: int| 0 <= i < at ==> is_local_char(#[trigger] s[i]) && s[i] != '@',
        decreases n - at,
    {
        if !local_char(cs[at]) {
            assert forall|a: int, d: int| !email_split(s, a, d) by {
                if email_split(s, a, d) {
                    if a <= at {
                        assert(s[a] != '@');
                    } else {
                        assert(is_local_char(s[at as int]));
                    }
                }
            }
            return false;
        }
        at += 1;
    }
    if at == n || at == 0 {
        assert forall|a: int, d: int| !email_split(s, a, d) by {
            if email_split(s, a, d) {
                if a < at {
                    assert(s[a] != '@');
                } else if at == 0 {
                } else {
                }
            }
        }
        return false;
    }
    // The top-level domain is the run of letters at the end.
    let mut k: usize = n;
    while k > at + 1 && letter(cs[k - 1])
        invariant
            s == email@,
            cs@ == s,
            n == cs.len(),
            at < n,
            at + 1 <= k <= n,
            forall|i: int| k <= i < n ==> is_letter(#[trigger] s[i]),
        decreases k,
    {
        k -= 1;
    }
    // Every split has its '@' at `at`; its '.' can only be at `k - 1`.
    assert forall|a: int, d: int| email_split(s, a, d) implies a == at && d == k - 1 by {
        if a < at {
            assert(s[a] != '@');
        }
        if a > at {
            assert(is_local_char(s[at as int]));
        }
        if d < k - 1 {
            if k == at + 1 {
            } else {
                assert(is_letter(s[k - 1]));
            }
        }
        if d > k - 1 {
            assert(is_letter(s[d]));
        }
    }
    if k == at + 1 || cs[k - 1] != '.' || n - k < 2 || k - 1 < at + 2 {
        return false;
    }
    let dot = k - 1;
    let mut j: usize = at + 1;
    while j < dot
        invariant
            s == email@,
            cs@ == s,
            n == cs.len(),
            at < j <= dot,
            dot < n,
            forall|i: int| at < i < j ==> is_domain_char(#[trigger] s[i]),
            forall|a: int, d: int| email_split(s, a, d) ==> a == at && d == dot,
        decreases dot - j,
    {
        if !domain_char(cs[j]) {
            return false;
        }
        j += 1;
    }
    assert(email_split(s, at as int, dot as int));
    true
}

/// The permission that a user gets when none was given.
pub open spec fn default_permission() -> UserPermission {
    UserPermission { grade: 254, read: true, write: false, update: false, delete: false }
}

/// `after` is `before` with the defaults filled in: the role "user" when it
/// had none, the default permission when it had none; everything else
/// unchanged.
pub open spec fn defaults_applied(before: Users, after: Users) -> bool {
    &&& after.username == before.username
    &&& after.name == before.name
    &&& after.email == before.email
    &&& after.password == before.password
    &&& after.status == before.status
    &&& match before.role {
        Some(role) => after.role == Some(role),
        None => after.role matches Some(role) && role@ == "user"@,
    }
    &&& match before.permission {
        Some(p) => after.permission == Some(p),
        None => after.permission == Some(default_permission()),
    }
}

/// `r` is the record that `before` is stored as when it becomes `after`:
/// the completed user, stamped with clock readings as its creation and
/// update times.
pub open spec fn stored_as_new(before: Users, after: Users, r: UsersCreate) -> bool {
    &&& defaults_applied(before, after)
    &&& r.base == after
    &&& clock_reading(r.created_at)
    &&& clock_reading(r.updated_at)
}

/// Access to the user that a value carries, and the record that a new user
/// is stored as.
pub trait UsersField {
    /// The value may be stored as a new user.
    spec fn may_create(&self) -> bool;

    fn base(&self) -> Users;

    fn create(&mut self) -> UsersCreate
        requires
            old(self).may_create(),
    ;
}

impl UsersField for Users {
    /// A user may be stored when its e-mail address is well-formed.
    open spec fn may_create(&self) -> bool {
        valid_email(self.email@)
    }

    /// The user itself.
    fn base(&self) -> (r: Users)
        ensures
            r == *self,
    {
        self.clone()
    }

    /// Fills in the defaults (see [`defaults_applied`]) and returns the
    /// record to store: the completed user, with the current time as its
    /// creation and update time. A user whose e-mail address is not
    /// well-formed is not accepted.
    fn create(&mut self) -> (r: UsersCreate)
        ensures
            defaults_applied(*old(self), *final(self)),
            r.base == *final(self),
            clock_reading(r.created_at),
            clock_reading(r.updated_at),
            stored_as_new(*old(self), *final(self), r),
    {
        if self.role.is_none() {
            self.role = Some(owned("user"));
        }
        if self.permission.is_none() {
            self.permission = Some(
                UserPermission { grade: 254, read: true, write: false, update: false, delete: false },
            );
        }
        let updated_at = now();
        let created_at = now();
        UsersCreate { base: self.clone(), updated_at, created_at }
    }
}

} // verus!

verus! {

/// Filling in the defaults a second time changes nothing: a user that has
/// been completed once stays as it is.
pub proof fn lemma_create_idempotent(before: Users, once: Users, twice: Users)
    requires
        defaults_applied(before, once),
        defaults_applied(once, twice),
    ensures
        twice == once,
{
}

/// The record of a new user is the user as given, with the defaults filled
/// in, and it is stamped when it is made: its creation and update times are
/// readings of the clock, real times at or after the Unix epoch, never a
/// time made up without reading the clock.
pub proof fn lemma_new_user_record_is_stamped(before: Users, after: Users, r: UsersCreate)
    requires
        stored_as_new(before, after, r),
    ensures
        r.base.username == before.username,
        r.base.email == before.email,
        r.base.password == before.password,
        r.base.role is Some,
        r.base.permission is Some,
        clock_reading(r.created_at),
        clock_reading(r.updated_at),
        r.created_at.secs >= 0,
        r.updated_at.secs >= 0,
{
    crate::records::lemma_clock_reading_is_a_time(r.created_at);
    crate::records::lemma_clock_reading_is_a_time(r.updated_at);
}

/// A completed user has a role and a permission.
pub proof fn lemma_created_user_is_complete(before: Users, after: Users)
    requires
        defaults_applied(before, after),
    ensures
        after.role is Some,
        after.permission is Some,
{
}

/// A well-formed e-mail address holds exactly one '@'.
pub proof fn lemma_valid_email_has_one_at(s: Seq<char>)
    requires
        valid_email(s),
    ensures
        exists|i: int| 0 <= i < s.len() && s[i] == '@',
        forall|i: int, j: int|
            0 <= i < s.len() && 0 <= j < s.len() && s[i] == '@' && s[j] == '@' ==> i == j,
{
    let (at, dot) = choose|at: int, dot: int| email_split(s, at, dot);
    assert(s[at] == '@');
    assert forall|i: int| 0 <= i < s.len() && s[i] == '@' implies i == at by {
        if i < at {
            assert(is_local_char(s[i]));
        } else if at < i < dot {
            assert(is_domain_char(s[i]));
        } else if i > dot {
            assert(is_letter(s[i]));
        }
    }
}

} // verus!
