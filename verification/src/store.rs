//! The in-memory model of the relational store.
//!
//! One value holds the three tables and the id counters. Its
//! well-formedness invariant carries what the schema and the service
//! promise: ids are unique and below the counters, emails are unique,
//! and a credential row exists exactly for the users that exist.
use vstd::prelude::*;

use crate::auth::Auth;
use crate::contact::Contact;
use crate::user::User;

verus! {

pub struct Store {
    pub users: Vec<User>,
    pub auths: Vec<Auth>,
    pub contacts: Vec<Contact>,
    pub next_user_id: i32,
    pub next_contact_id: i32,
}

/// The first user carrying the given email, in row order.
pub open spec fn find_user_by_email_spec(users: Seq<User>, email: Seq<char>) -> Option<User>
    decreases users.len(),
{
    if users.len() == 0 {
        None
    } else if users[0].email@ == email {
        Some(users[0])
    } else {
        find_user_by_email_spec(users.drop_first(), email)
    }
}

pub open spec fn has_email(users: Seq<User>, email: Seq<char>) -> bool {
    exists|i: int| 0 <= i < users.len() && (#[trigger] users[i]).email@ == email
}

/// The first user carrying the given id, in row order.
pub open spec fn find_user_by_id_spec(users: Seq<User>, id: i32) -> Option<User>
    decreases users.len(),
{
    if users.len() == 0 {
        None
    } else if users[0].id == id {
        Some(users[0])
    } else {
        find_user_by_id_spec(users.drop_first(), id)
    }
}

pub open spec fn has_user_id(users: Seq<User>, id: i32) -> bool {
    exists|i: int| 0 <= i < users.len() && (#[trigger] users[i]).id == id
}

pub open spec fn has_auth_for(auths: Seq<Auth>, user_id: i32) -> bool {
    exists|i: int| 0 <= i < auths.len() && (#[trigger] auths[i]).user_id == user_id
}

/// The first credential row of the given user, in row order.
pub open spec fn find_auth_spec(auths: Seq<Auth>, user_id: i32) -> Option<Auth>
    decreases auths.len(),
{
    if auths.len() == 0 {
        None
    } else if auths[0].user_id == user_id {
        Some(auths[0])
    } else {
        find_auth_spec(auths.drop_first(), user_id)
    }
}

/// The first contact carrying the given id, in row order.
pub open spec fn find_contact_spec(contacts: Seq<Contact>, id: i32) -> Option<Contact>
    decreases contacts.len(),
{
    if contacts.len() == 0 {
        None
    } else if contacts[0].id == id {
        Some(contacts[0])
    } else {
        find_contact_spec(contacts.drop_first(), id)
    }
}

/// The contacts owned by the given user, in row order.
pub open spec fn contacts_of_spec(contacts: Seq<Contact>, user_id: i32) -> Seq<Contact>
    decreases contacts.len(),
{
    if contacts.len() == 0 {
        Seq::empty()
    } else {
        let rest = contacts_of_spec(contacts.drop_first(), user_id);
        if contacts[0].user_id == user_id {
            seq![contacts[0]] + rest
        } else {
            rest
        }
    }
}

/// What a row-order search answers, index-wise: a hit is a row whose
/// predecessors all miss, and a miss means every row misses.
pub proof fn lemma_find_user_by_email(users: Seq<User>, email: Seq<char>)
    ensures
        match find_user_by_email_spec(users, email) {
            Some(u) => {
                &&& u.email@ == email
                &&& exists|i: int| 0 <= i < users.len() && #[trigger] users[i] == u
            },
            None => forall|i: int|
                0 <= i < users.len() ==> (#[trigger] users[i]).email@ != email,
        },
    decreases users.len(),
{
    if users.len() > 0 {
        if users[0].email@ == email {
            assert(users[0] == users[0]);
        } else {
            lemma_find_user_by_email(users.drop_first(), email);
            let rest = users.drop_first();
            match find_user_by_email_spec(rest, email) {
                Some(u) => {
                    let i = choose|i: int| 0 <= i < rest.len() && #[trigger] rest[i] == u;
                    assert(users[i + 1] == u);
                },
                None => {
                    assert forall|i: int|
                        0 <= i < users.len() implies (#[trigger] users[i]).email@ != email by {
                        if i > 0 {
                            assert(rest[i - 1] == users[i]);
                        }
                    }
                },
            }
        }
    }
}

impl Store {
    pub open spec fn users_wf(self) -> bool {
        &&& forall|i: int|
            0 <= i < self.users@.len() ==> 1 <= (#[trigger] self.users@[i]).id
                < self.next_user_id
        &&& forall|i: int, j: int|
            0 <= i < j < self.users@.len() ==> #[trigger] self.users@[i].id
                != #[trigger] self.users@[j].id
        &&& forall|i: int, j: int|
            0 <= i < j < self.users@.len() ==> #[trigger] self.users@[i].email@
                != #[trigger] self.users@[j].email@
    }

    pub open spec fn auths_wf(self) -> bool {
        &&& forall|i: int|
            0 <= i < self.auths@.len() ==> has_user_id(
                self.users@,
                (#[trigger] self.auths@[i]).user_id,
            )
        &&& forall|i: int, j: int|
            0 <= i < j < self.auths@.len() ==> #[trigger] self.auths@[i].user_id
                != #[trigger] self.auths@[j].user_id
        &&& forall|i: int|
            0 <= i < self.users@.len() ==> has_auth_for(
                self.auths@,
                (#[trigger] self.users@[i]).id,
            )
    }

    pub open spec fn contacts_wf(self) -> bool {
        &&& forall|i: int|
            0 <= i < self.contacts@.len() ==> 1 <= (#[trigger] self.contacts@[i]).id
                < self.next_contact_id
        &&& forall|i: int, j: int|
            0 <= i < j < self.contacts@.len() ==> #[trigger] self.contacts@[i].id
                != #[trigger] self.contacts@[j].id
    }

    /// A credential row exists exactly for the users that exist, ids and
    /// emails are unique, and every id lies below its counter.
    pub open spec fn wf(self) -> bool {
        &&& 1 <= self.next_user_id
        &&& 1 <= self.next_contact_id
        &&& self.users_wf()
        &&& self.auths_wf()
        &&& self.contacts_wf()
    }

    /// An empty store.
    pub fn new() -> (r: Store)
        ensures
            r.wf(),
            r.users@.len() == 0,
            r.auths@.len() == 0,
            r.contacts@.len() == 0,
            r.next_user_id == 1,
            r.next_contact_id == 1,
    {
        Store {
            users: Vec::new(),
            auths: Vec::new(),
            contacts: Vec::new(),
            next_user_id: 1,
            next_contact_id: 1,
        }
    }
}

/// Two rows of a well-formed store that carry the same email are the same
/// row: registration can never have produced a duplicate.
pub proof fn lemma_unique_email(s: Store, i: int, j: int)
    requires
        s.wf(),
        0 <= i < s.users@.len(),
        0 <= j < s.users@.len(),
        s.users@[i].email@ == s.users@[j].email@,
    ensures
        i == j,
{
}

} // verus!
