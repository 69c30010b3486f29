//! The user resource.
use vstd::prelude::*;
use vstd::string::StringExecFns;

use crate::auth::hash_inputs_ok;
use crate::claims::Claims;
use crate::auth::hash_of;
use crate::auth::Auth;
use crate::auth::NewAuth;
use crate::error::ApiError;
use crate::store::find_user_by_email_spec;
use crate::store::find_user_by_id_spec;
use crate::store::has_email;
use crate::store::lemma_find_user_by_email;
use crate::store::Store;
use crate::str_eq;

verus! {

#[derive(Debug, PartialEq)]
pub struct User {
    pub id: i32,
    pub name: String,
    pub email: String,
    pub role: String,
}

impl Clone for User {
    fn clone(&self) -> (r: Self)
        ensures
            r == *self,
    {
        User {
            id: self.id,
            name: self.name.clone(),
            email: self.email.clone(),
            role: self.role.clone(),
        }
    }
}

/// The row shape of a user about to be inserted, before the store picks
/// its id.
pub struct NewUser {
    pub name: String,
    pub email: String,
    pub role: String,
}

pub enum Role {
    Admin(String),
    User(String),
}

/// The registration request body.
#[derive(Debug)]
pub struct Register {
    pub name: String,
    pub email: String,
    pub password: String,
}

/// The user update request body; absent fields keep their value.
#[derive(Debug)]
pub struct Update {
    pub name: Option<String>,
    pub email: Option<String>,
    pub role: Option<String>,
}

/// What registration does to the store: on success exactly one user row
/// and its credential row appear together, with the role forced to
/// "user"; on any failure the store is exactly what it was.
pub open spec fn create_post(
    s0: Store,
    s1: Store,
    name: Seq<char>,
    email: Seq<char>,
    password: Seq<char>,
    salt: Seq<char>,
    r: Result<User, ApiError>,
) -> bool {
    &&& (r is Err ==> s1 == s0)
    &&& (match r {
        Ok(u) => {
            &&& !has_email(s0.users@, email)
            &&& hash_inputs_ok(password, salt)
            &&& s0.next_user_id < i32::MAX
            &&& u.id == s0.next_user_id
            &&& u.name@ == name
            &&& u.email@ == email
            &&& u.role@ == "user"@
            &&& s1.users@ == s0.users@.push(u)
            &&& s1.auths@.len() == s0.auths@.len() + 1
            &&& s1.auths@ == s0.auths@.push(s1.auths@.last())
            &&& s1.auths@.last().user_id == u.id
            &&& s1.auths@.last().hash@ == hash_of(password, salt)
            &&& s1.auths@.last().error == 0
            &&& s1.contacts@ == s0.contacts@
            &&& s1.next_user_id == s0.next_user_id + 1
            &&& s1.next_contact_id == s0.next_contact_id
        },
        Err(e) => {
            if has_email(s0.users@, email) {
                e == ApiError::Conflict
            } else if !hash_inputs_ok(password, salt) {
                e == ApiError::ConfigurationError
            } else {
                s0.next_user_id == i32::MAX && e == ApiError::InternalServerError
            }
        },
    })
}

impl User {
    /// Every user row, in row order.
    pub fn all(store: &Store) -> (r: Result<Vec<User>, ApiError>)
        ensures
            r is Ok,
            r.unwrap()@ == store.users@,
    {
        let n = store.users.len();
        let mut out: Vec<User> = Vec::new();
        let mut i: usize = 0;
        while i < n
            invariant
                i <= n,
                n == store.users@.len(),
                out@ == store.users@.take(i as int),
            decreases n - i,
        {
            out.push(store.users[i].clone());
            proof {
                assert(out@ =~= store.users@.take(i + 1));
            }
            i = i + 1;
        }
        proof {
            assert(store.users@.take(n as int) =~= store.users@);
        }
        Ok(out)
    }

    /// Find a user by id.
    pub fn find(store: &Store, id_param: i32) -> (r: Result<User, ApiError>)
        ensures
            match find_user_by_id_spec(store.users@, id_param) {
                Some(u) => r == Ok::<User, ApiError>(u),
                None => r == Err::<User, ApiError>(ApiError::NotFound),
            },
    {
        let n = store.users.len();
        let mut i: usize = 0;
        proof {
            assert(store.users@.skip(0) =~= store.users@);
        }
        while i < n
            invariant
                i <= n,
                n == store.users@.len(),
                find_user_by_id_spec(store.users@, id_param) == find_user_by_id_spec(
                    store.users@.skip(i as int),
                    id_param,
                ),
            decreases n - i,
        {
            proof {
                assert(store.users@.skip(i as int)[0] == store.users@[i as int]);
                assert(store.users@.skip(i as int).drop_first() =~= store.users@.skip(i + 1));
            }
            if store.users[i].id == id_param {
                return Ok(store.users[i].clone());
            }
            i = i + 1;
        }
        proof {
            assert(store.users@.skip(n as int) =~= Seq::<User>::empty());
        }
        Err(ApiError::NotFound)
    }

    /// Find a user by email, the login identifier.
    pub fn find_by_email(store: &Store, email_param: String) -> (r: Result<User, ApiError>)
        ensures
            match find_user_by_email_spec(store.users@, email_param@) {
                Some(u) => r == Ok::<User, ApiError>(u),
                None => r == Err::<User, ApiError>(ApiError::NotFound),
            },
    {
        let n = store.users.len();
        let mut i: usize = 0;
        proof {
            assert(store.users@.skip(0) =~= store.users@);
        }
        while i < n
            invariant
                i <= n,
                n == store.users@.len(),
                find_user_by_email_spec(store.users@, email_param@) == find_user_by_email_spec(
                    store.users@.skip(i as int),
                    email_param@,
                ),
            decreases n - i,
        {
            proof {
                assert(store.users@.skip(i as int)[0] == store.users@[i as int]);
                assert(store.users@.skip(i as int).drop_first() =~= store.users@.skip(i + 1));
            }
            if str_eq(store.users[i].email.as_str(), email_param.as_str()) {
                return Ok(store.users[i].clone());
            }
            i = i + 1;
        }
        proof {
            assert(store.users@.skip(n as int) =~= Seq::<User>::empty());
        }
        Err(ApiError::NotFound)
    }

    /// Create a user together with its credential row. The two writes
    /// stand or fall together: on any failure the store is untouched.
    pub fn create(store: &mut Store, param: Register, salt: &str) -> (r: Result<User, ApiError>)
        requires
            old(store).wf(),
        ensures
            final(store).wf(),
            create_post(
                *old(store),
                *final(store),
                param.name@,
                param.email@,
                param.password@,
                salt@,
                r,
            ),
    {
        let Register { name, email, password } = param;
        let already_exists = match User::find_by_email(store, email.clone()) {
            Ok(_) => true,
            Err(_) => false,
        };
        proof {
            lemma_find_user_by_email(store.users@, email@);
        }
        if already_exists {
            return Err(ApiError::Conflict);
        }
        let new_auth = match NewAuth::new(store.next_user_id, password, salt) {
            Ok(a) => a,
            Err(e) => {
                return Err(e);
            },
        };
        if store.next_user_id == i32::MAX {
            return Err(ApiError::InternalServerError);
        }
        let id = store.next_user_id;
        let user = User { id, name, email, role: String::from_str("user") };
        let auth = Auth { user_id: new_auth.user_id, hash: new_auth.hash, error: 0 };
        let out = user.clone();
        store.users.push(user);
        store.auths.push(auth);
        store.next_user_id = id + 1;
        proof {
            let s0 = *old(store);
            let s1 = *store;
            assert(s1.users@.last() == out);
            assert forall|i: int| 0 <= i < s1.users@.len() implies 1 <= (
            #[trigger] s1.users@[i]).id < s1.next_user_id by {
                if i < s0.users@.len() {
                    assert(s1.users@[i] == s0.users@[i]);
                }
            }
            assert forall|i: int, j: int| 0 <= i < j < s1.users@.len() implies #[trigger] s1.users@[i].id != #[trigger] s1.users@[j].id by {
                if j < s0.users@.len() {
                    assert(s1.users@[i] == s0.users@[i] && s1.users@[j] == s0.users@[j]);
                } else {
                    assert(s1.users@[i] == s0.users@[i] && s1.users@[j] == out);
                }
            }
            assert forall|i: int, j: int| 0 <= i < j < s1.users@.len() implies #[trigger] s1.users@[i].email@ != #[trigger] s1.users@[j].email@ by {
                if j < s0.users@.len() {
                    assert(s1.users@[i] == s0.users@[i] && s1.users@[j] == s0.users@[j]);
                } else {
                    assert(s1.users@[i] == s0.users@[i] && s1.users@[j] == out);
                }
            }
            assert(s1.auths_wf()) by {
                assert forall|i: int| 0 <= i < s1.auths@.len() implies crate::store::has_user_id(
                    s1.users@,
                    (#[trigger] s1.auths@[i]).user_id,
                ) by {
                    if i < s0.auths@.len() {
                        assert(s1.auths@[i] == s0.auths@[i]);
                        let k = choose|k: int|
                            0 <= k < s0.users@.len() && (#[trigger] s0.users@[k]).id
                                == s0.auths@[i].user_id;
                        assert(s1.users@[k] == s0.users@[k]);
                    } else {
                        assert(s1.users@[s0.users@.len() as int] == out);
                    }
                }
                assert forall|i: int, j: int| 0 <= i < j < s1.auths@.len() implies #[trigger] s1.auths@[i].user_id != #[trigger] s1.auths@[j].user_id by {
                    if j < s0.auths@.len() {
                        assert(s1.auths@[i] == s0.auths@[i] && s1.auths@[j] == s0.auths@[j]);
                    } else {
                        assert(s1.auths@[i] == s0.auths@[i] && s1.auths@[j].user_id == id);
                        let k = choose|k: int|
                            0 <= k < s0.users@.len() && (#[trigger] s0.users@[k]).id
                                == s0.auths@[i].user_id;
                    }
                }
                assert forall|i: int| 0 <= i < s1.users@.len() implies crate::store::has_auth_for(
                    s1.auths@,
                    (#[trigger] s1.users@[i]).id,
                ) by {
                    if i < s0.users@.len() {
                        assert(s1.users@[i] == s0.users@[i]);
                        let k = choose|k: int|
                            0 <= k < s0.auths@.len() && (#[trigger] s0.auths@[k]).user_id
                                == s0.users@[i].id;
                        assert(s1.auths@[k] == s0.auths@[k]);
                    } else {
                        assert(s1.auths@[s0.auths@.len() as int].user_id == s1.users@[i].id);
                    }
                }
            }
        }
        Ok(out)
    }

    /// Update the named fields of a user; absent fields keep their
    /// value. An email that another user already carries is a conflict.
    #[verifier::rlimit(100)]
    #[verifier::spinoff_prover]
    pub fn update(store: &mut Store, id_param: i32, param: Update) -> (r: Result<User, ApiError>)
        requires
            old(store).wf(),
        ensures
            final(store).wf(),
            update_post(*old(store), *final(store), id_param, param, r),
    {
        let ghost s0 = *store;
        let idx = match index_of_user(store, id_param) {
            Option::Some(i) => i,
            Option::None => {
                return Err(ApiError::NotFound);
            },
        };
        let u0 = store.users[idx].clone();
        let Update { name, email, role } = param;
        let name_final = match name {
            Option::Some(x) => x,
            Option::None => u0.name.clone(),
        };
        let email_final = match email {
            Option::Some(x) => {
                let conflicting = match User::find_by_email(store, x.clone()) {
                    Ok(other) => other.id != id_param,
                    Err(_) => false,
                };
                proof {
                    lemma_find_user_by_email(store.users@, x@);
                }
                if conflicting {
                    return Err(ApiError::Conflict);
                }
                x
            },
            Option::None => u0.email.clone(),
        };
        let role_final = match role {
            Option::Some(x) => x,
            Option::None => u0.role.clone(),
        };
        let u2 = User { id: id_param, name: name_final, email: email_final, role: role_final };
        let out = u2.clone();
        store.users.remove(idx);
        store.users.insert(idx, u2);
        proof {
            let s1 = *store;
            s0.users@.remove_ensures(idx as int);
            s0.users@.remove(idx as int).insert_ensures(idx as int, out);
            assert(s1.users@ =~= s0.users@.update(idx as int, out));
            assert forall|k: int| 0 <= k < s1.users@.len() implies (#[trigger] s1.users@[k])
                == (if k == idx as int {
                out
            } else {
                s0.users@[k]
            }) by {}
            // the updated email collides with nobody else's
            assert forall|k: int| 0 <= k < s1.users@.len() && k != idx as int implies (
            #[trigger] s1.users@[k]).email@ != out.email@ by {
                if email is Some {
                    if s0.users@[k].email@ == out.email@ {
                        // the first row holding that email is row idx itself
                        match find_user_by_email_spec(s0.users@, out.email@) {
                            Some(w) => {
                                let m = choose|m: int|
                                    0 <= m < s0.users@.len() && #[trigger] s0.users@[m] == w;
                                assert(s0.users@[m].id == id_param);
                                assert(m == idx as int);
                                crate::store::lemma_unique_email(s0, k, m);
                            },
                            None => {},
                        }
                    }
                } else {
                    assert(out.email@ == s0.users@[idx as int].email@);
                    if s0.users@[k].email@ == out.email@ {
                        crate::store::lemma_unique_email(s0, k, idx as int);
                    }
                }
            }
            assert(s1.users_wf());
            assert(s1.auths_wf()) by {
                assert forall|i: int| 0 <= i < s1.auths@.len() implies crate::store::has_user_id(
                    s1.users@,
                    (#[trigger] s1.auths@[i]).user_id,
                ) by {
                    let m = choose|m: int|
                        0 <= m < s0.users@.len() && (#[trigger] s0.users@[m]).id
                            == s0.auths@[i].user_id;
                    assert(s1.users@[m].id == s0.users@[m].id);
                }
                assert forall|i: int| 0 <= i < s1.users@.len() implies crate::store::has_auth_for(
                    s1.auths@,
                    (#[trigger] s1.users@[i]).id,
                ) by {
                    assert(s1.users@[i].id == s0.users@[i].id);
                }
            }
        }
        Ok(out)
    }

    /// Delete a user and its credential row together; deleting an absent
    /// id is not an error and touches nothing.
    pub fn delete(store: &mut Store, id_param: i32) -> (r: Result<usize, ApiError>)
        requires
            old(store).wf(),
        ensures
            final(store).wf(),
            delete_post(*old(store), *final(store), id_param, r),
    {
        let ghost s0 = *store;
        let idx = match index_of_user(store, id_param) {
            Option::Some(i) => i,
            Option::None => {
                return Ok(0);
            },
        };
        let jdx = match index_of_auth(store, id_param) {
            Option::Some(j) => j,
            Option::None => {
                proof {
                    assert(false);
                }
                return Ok(0);
            },
        };
        store.users.remove(idx);
        store.auths.remove(jdx);
        proof {
            let s1 = *store;
            s0.users@.remove_ensures(idx as int);
            s0.auths@.remove_ensures(jdx as int);
            assert forall|k: int| 0 <= k < s1.users@.len() implies (#[trigger] s1.users@[k])
                == (if k < idx as int {
                s0.users@[k]
            } else {
                s0.users@[k + 1]
            }) by {}
            assert forall|k: int| 0 <= k < s1.auths@.len() implies (#[trigger] s1.auths@[k])
                == (if k < jdx as int {
                s0.auths@[k]
            } else {
                s0.auths@[k + 1]
            }) by {}
            assert(s1.users_wf());
            assert forall|k: int| 0 <= k < s1.users@.len() implies (#[trigger] s1.users@[k]).id
                != id_param by {}
            assert(s1.auths_wf()) by {
                assert forall|i: int| 0 <= i < s1.auths@.len() implies crate::store::has_user_id(
                    s1.users@,
                    (#[trigger] s1.auths@[i]).user_id,
                ) by {
                    let x = s1.auths@[i].user_id;
                    assert(x != id_param);
                    let m = choose|m: int|
                        0 <= m < s0.users@.len() && (#[trigger] s0.users@[m]).id == x;
                    assert(m != idx as int);
                    if m < idx as int {
                        assert(s1.users@[m] == s0.users@[m]);
                    } else {
                        assert(s1.users@[m - 1] == s0.users@[m]);
                    }
                }
                assert forall|i: int| 0 <= i < s1.users@.len() implies crate::store::has_auth_for(
                    s1.auths@,
                    (#[trigger] s1.users@[i]).id,
                ) by {
                    let y = s1.users@[i].id;
                    assert(y != id_param);
                    let m = choose|m: int|
                        0 <= m < s0.auths@.len() && (#[trigger] s0.auths@[m]).user_id == y;
                    assert(m != jdx as int);
                    if m < jdx as int {
                        assert(s1.auths@[m] == s0.auths@[m]);
                    } else {
                        assert(s1.auths@[m - 1] == s0.auths@[m]);
                    }
                }
            }
        }
        Ok(1)
    }
}

/// What updating a user does to the store.
pub open spec fn update_post(
    s0: Store,
    s1: Store,
    id_param: i32,
    param: Update,
    r: Result<User, ApiError>,
) -> bool {
    &&& (r is Err ==> s1 == s0)
    &&& (match r {
        Ok(u) => {
            &&& find_user_by_id_spec(s0.users@, id_param) is Some
            &&& {
                let u0 = find_user_by_id_spec(s0.users@, id_param).unwrap();
                &&& u.id == id_param
                &&& u.name@ == (match param.name {
                    Some(n) => n@,
                    None => u0.name@,
                })
                &&& u.email@ == (match param.email {
                    Some(e) => e@,
                    None => u0.email@,
                })
                &&& u.role@ == (match param.role {
                    Some(x) => x@,
                    None => u0.role@,
                })
                &&& exists|i: int|
                    0 <= i < s0.users@.len() && (#[trigger] s0.users@[i]).id == id_param
                        && s1.users@ == s0.users@.update(i, u)
            }
            &&& s1.auths@ == s0.auths@
            &&& s1.contacts@ == s0.contacts@
            &&& s1.next_user_id == s0.next_user_id
            &&& s1.next_contact_id == s0.next_contact_id
        },
        Err(e) => {
            if find_user_by_id_spec(s0.users@, id_param) is None {
                e == ApiError::NotFound
            } else {
                &&& e == ApiError::Conflict
                &&& param.email is Some
                &&& exists|j: int|
                    0 <= j < s0.users@.len() && (#[trigger] s0.users@[j]).email@
                        == param.email.unwrap()@ && s0.users@[j].id != id_param
            }
        },
    })
}

/// What deleting a user does to the store: the user row and its
/// credential row leave together.
pub open spec fn delete_post(s0: Store, s1: Store, id_param: i32, r: Result<usize, ApiError>) -> bool {
    match find_user_by_id_spec(s0.users@, id_param) {
        None => r == Ok::<usize, ApiError>(0) && s1 == s0,
        Some(u0) => {
            &&& r == Ok::<usize, ApiError>(1)
            &&& exists|i: int|
                0 <= i < s0.users@.len() && (#[trigger] s0.users@[i]).id == id_param && s1.users@
                    == s0.users@.remove(i)
            &&& exists|j: int|
                0 <= j < s0.auths@.len() && (#[trigger] s0.auths@[j]).user_id == id_param
                    && s1.auths@ == s0.auths@.remove(j)
            &&& !crate::store::has_user_id(s1.users@, id_param)
            &&& s1.contacts@ == s0.contacts@
            &&& s1.next_user_id == s0.next_user_id
            &&& s1.next_contact_id == s0.next_contact_id
        },
    }
}

/// List every user; administrators only.
pub fn get_all(claims: &Claims, store: &Store) -> (r: Result<Vec<User>, ApiError>)
    ensures
        !claims.is_admin_spec() ==> r == Err::<Vec<User>, ApiError>(ApiError::AdminRequired),
        claims.is_admin_spec() ==> r is Ok && r.unwrap()@ == store.users@,
{
    if !claims.is_admin() {
        return Err(ApiError::AdminRequired);
    }
    User::all(store)
}

/// Fetch one user; the administrator or that user alone.
pub fn get_one(claims: &Claims, store: &Store, id: i32) -> (r: Result<User, ApiError>)
    ensures
        !claims.allows(id) ==> r == Err::<User, ApiError>(ApiError::Forbidden),
        claims.allows(id) ==> match find_user_by_id_spec(store.users@, id) {
            Some(u) => r == Ok::<User, ApiError>(u),
            None => r == Err::<User, ApiError>(ApiError::NotFound),
        },
{
    if !claims.is_allowed(id) {
        return Err(ApiError::Forbidden);
    }
    User::find(store, id)
}

/// Update one user; the administrator or that user alone.
pub fn update_one(claims: &Claims, store: &mut Store, id: i32, payload: Update) -> (r: Result<
    User,
    ApiError,
>)
    requires
        old(store).wf(),
    ensures
        final(store).wf(),
        !claims.allows(id) ==> r == Err::<User, ApiError>(ApiError::Forbidden) && *final(store)
            == *old(store),
        claims.allows(id) ==> update_post(*old(store), *final(store), id, payload, r),
{
    if !claims.is_allowed(id) {
        return Err(ApiError::Forbidden);
    }
    User::update(store, id, payload)
}

/// Delete one user; the administrator or that user alone.
pub fn delete_one(claims: &Claims, store: &mut Store, id: i32) -> (r: Result<usize, ApiError>)
    requires
        old(store).wf(),
    ensures
        final(store).wf(),
        !claims.allows(id) ==> r == Err::<usize, ApiError>(ApiError::Forbidden) && *final(store)
            == *old(store),
        claims.allows(id) ==> delete_post(*old(store), *final(store), id, r),
{
    if !claims.is_allowed(id) {
        return Err(ApiError::Forbidden);
    }
    User::delete(store, id)
}

/// The row index of the user with the given id, if any.
fn index_of_user(store: &Store, id_param: i32) -> (r: Option<usize>)
    ensures
        match r {
            Some(i) => i < store.users@.len() && store.users@[i as int].id == id_param
                && find_user_by_id_spec(store.users@, id_param) == Some(store.users@[i as int]),
            None => find_user_by_id_spec(store.users@, id_param) is None && forall|k: int|
                0 <= k < store.users@.len() ==> (#[trigger] store.users@[k]).id != id_param,
        },
{
    let n = store.users.len();
    let mut i: usize = 0;
    proof {
        assert(store.users@.skip(0) =~= store.users@);
    }
    while i < n
        invariant
            i <= n,
            n == store.users@.len(),
            find_user_by_id_spec(store.users@, id_param) == find_user_by_id_spec(
                store.users@.skip(i as int),
                id_param,
            ),
            forall|k: int| 0 <= k < i ==> (#[trigger] store.users@[k]).id != id_param,
        decreases n - i,
    {
        proof {
            assert(store.users@.skip(i as int)[0] == store.users@[i as int]);
            assert(store.users@.skip(i as int).drop_first() =~= store.users@.skip(i + 1));
        }
        if store.users[i].id == id_param {
            return Some(i);
        }
        i = i + 1;
    }
    proof {
        assert(store.users@.skip(n as int) =~= Seq::<User>::empty());
    }
    None
}

/// The row index of the credential of the given user, if any.
fn index_of_auth(store: &Store, user_id_param: i32) -> (r: Option<usize>)
    ensures
        match r {
            Some(j) => j < store.auths@.len() && store.auths@[j as int].user_id == user_id_param,
            None => forall|k: int|
                0 <= k < store.auths@.len() ==> (#[trigger] store.auths@[k]).user_id
                    != user_id_param,
        },
{
    let n = store.auths.len();
    let mut i: usize = 0;
    while i < n
        invariant
            i <= n,
            n == store.auths@.len(),
            forall|k: int| 0 <= k < i ==> (#[trigger] store.auths@[k]).user_id != user_id_param,
        decreases n - i,
    {
        if store.auths[i].user_id == user_id_param {
            return Some(i);
        }
        i = i + 1;
    }
    None
}

} // verus!
