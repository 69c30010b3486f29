//! The contact resource.
use vstd::prelude::*;

use crate::claims::Claims;
use crate::error::ApiError;
use crate::store::contacts_of_spec;
use crate::store::find_contact_spec;
use crate::store::has_user_id;
use crate::store::Store;

verus! {

#[derive(Debug, PartialEq)]
pub struct Contact {
    pub id: i32,
    pub user_id: i32,
    pub lastname: String,
    pub firstname: String,
    pub email: String,
    pub phone: String,
}

impl Clone for Contact {
    fn clone(&self) -> (r: Self)
        ensures
            r == *self,
    {
        Contact {
            id: self.id,
            user_id: self.user_id,
            lastname: self.lastname.clone(),
            firstname: self.firstname.clone(),
            email: self.email.clone(),
            phone: self.phone.clone(),
        }
    }
}

/// The contact create/update request body; on update, absent fields keep
/// their value.
pub struct NewUpdateContact {
    pub lastname: Option<String>,
    pub firstname: Option<String>,
    pub email: Option<String>,
    pub phone: Option<String>,
}

/// What creating a contact for a user does to the store.
pub open spec fn contact_create_post(
    s0: Store,
    s1: Store,
    user_id_param: i32,
    param: NewUpdateContact,
    r: Result<Contact, ApiError>,
) -> bool {
    &&& (r is Err ==> s1 == s0)
    &&& (match r {
        Ok(c) => {
            &&& has_user_id(s0.users@, user_id_param)
            &&& param.lastname is Some && param.firstname is Some && param.email is Some
                && param.phone is Some
            &&& s0.next_contact_id < i32::MAX
            &&& c.id == s0.next_contact_id
            &&& c.user_id == user_id_param
            &&& c.lastname@ == param.lastname.unwrap()@
            &&& c.firstname@ == param.firstname.unwrap()@
            &&& c.email@ == param.email.unwrap()@
            &&& c.phone@ == param.phone.unwrap()@
            &&& s1.contacts@ == s0.contacts@.push(c)
            &&& s1.users@ == s0.users@
            &&& s1.auths@ == s0.auths@
            &&& s1.next_user_id == s0.next_user_id
            &&& s1.next_contact_id == s0.next_contact_id + 1
        },
        Err(e) => {
            if !has_user_id(s0.users@, user_id_param) {
                e == ApiError::NotFound
            } else if !(param.lastname is Some && param.firstname is Some && param.email is Some
                && param.phone is Some) {
                e == ApiError::NotValid
            } else {
                s0.next_contact_id == i32::MAX && e == ApiError::InternalServerError
            }
        },
    })
}

/// What updating a contact does to the store.
pub open spec fn contact_update_post(
    s0: Store,
    s1: Store,
    id_param: i32,
    param: NewUpdateContact,
    r: Result<Contact, ApiError>,
) -> bool {
    &&& (r is Err ==> s1 == s0)
    &&& (match r {
        Ok(c) => {
            &&& find_contact_spec(s0.contacts@, id_param) is Some
            &&& {
                let c0 = find_contact_spec(s0.contacts@, id_param).unwrap();
                &&& c.id == id_param
                &&& c.user_id == c0.user_id
                &&& c.lastname@ == (match param.lastname {
                    Some(x) => x@,
                    None => c0.lastname@,
                })
                &&& c.firstname@ == (match param.firstname {
                    Some(x) => x@,
                    None => c0.firstname@,
                })
                &&& c.email@ == (match param.email {
                    Some(x) => x@,
                    None => c0.email@,
                })
                &&& c.phone@ == (match param.phone {
                    Some(x) => x@,
                    None => c0.phone@,
                })
                &&& exists|i: int|
                    0 <= i < s0.contacts@.len() && (#[trigger] s0.contacts@[i]).id == id_param
                        && s1.contacts@ == s0.contacts@.update(i, c)
            }
            &&& s1.users@ == s0.users@
            &&& s1.auths@ == s0.auths@
            &&& s1.next_user_id == s0.next_user_id
            &&& s1.next_contact_id == s0.next_contact_id
        },
        Err(e) => find_contact_spec(s0.contacts@, id_param) is None && e == ApiError::NotFound,
    })
}

/// What deleting a contact does to the store.
pub open spec fn contact_delete_post(
    s0: Store,
    s1: Store,
    id_param: i32,
    r: Result<usize, ApiError>,
) -> bool {
    match find_contact_spec(s0.contacts@, id_param) {
        None => r == Ok::<usize, ApiError>(0) && s1 == s0,
        Some(c0) => {
            &&& r == Ok::<usize, ApiError>(1)
            &&& exists|i: int|
                0 <= i < s0.contacts@.len() && (#[trigger] s0.contacts@[i]).id == id_param
                    && s1.contacts@ == s0.contacts@.remove(i)
            &&& s1.users@ == s0.users@
            &&& s1.auths@ == s0.auths@
            &&& s1.next_user_id == s0.next_user_id
            &&& s1.next_contact_id == s0.next_contact_id
        },
    }
}

/// The row index of the contact with the given id, if any.
fn index_of_contact(store: &Store, id_param: i32) -> (r: Option<usize>)
    ensures
        match r {
            Some(i) => i < store.contacts@.len() && store.contacts@[i as int].id == id_param
                && find_contact_spec(store.contacts@, id_param) == Some(
                store.contacts@[i as int],
            ),
            None => find_contact_spec(store.contacts@, id_param) is None,
        },
{
    let n = store.contacts.len();
    let mut i: usize = 0;
    proof {
        assert(store.contacts@.skip(0) =~= store.contacts@);
    }
    while i < n
        invariant
            i <= n,
            n == store.contacts@.len(),
            find_contact_spec(store.contacts@, id_param) == find_contact_spec(
                store.contacts@.skip(i as int),
                id_param,
            ),
        decreases n - i,
    {
        proof {
            assert(store.contacts@.skip(i as int)[0] == store.contacts@[i as int]);
            assert(store.contacts@.skip(i as int).drop_first() =~= store.contacts@.skip(i + 1));
        }
        if store.contacts[i].id == id_param {
            return Some(i);
        }
        i = i + 1;
    }
    proof {
        assert(store.contacts@.skip(n as int) =~= Seq::<Contact>::empty());
    }
    None
}

/// Whether a user row with the given id exists.
fn user_exists(store: &Store, id: i32) -> (r: bool)
    ensures
        r == has_user_id(store.users@, id),
{
    let n = store.users.len();
    let mut i: usize = 0;
    while i < n
        invariant
            i <= n,
            n == store.users@.len(),
            forall|k: int| 0 <= k < i ==> (#[trigger] store.users@[k]).id != id,
        decreases n - i,
    {
        if store.users[i].id == id {
            proof {
                assert(has_user_id(store.users@, id));
            }
            return true;
        }
        i = i + 1;
    }
    false
}

impl Contact {
    /// Every contact owned by the given user, in row order.
    pub fn all(store: &Store, user_id_param: i32) -> (r: Result<Vec<Contact>, ApiError>)
        ensures
            r is Ok,
            r.unwrap()@ == contacts_of_spec(store.contacts@, user_id_param),
    {
        let n = store.contacts.len();
        let mut out: Vec<Contact> = Vec::new();
        let mut i: usize = 0;
        proof {
            assert(store.contacts@.skip(0) =~= store.contacts@);
        }
        while i < n
            invariant
                i <= n,
                n == store.contacts@.len(),
                contacts_of_spec(store.contacts@, user_id_param) == out@ + contacts_of_spec(
                    store.contacts@.skip(i as int),
                    user_id_param,
                ),
            decreases n - i,
        {
            let ghost pre = out@;
            let ghost rest = store.contacts@.skip(i as int);
            proof {
                assert(rest[0] == store.contacts@[i as int]);
                assert(rest.drop_first() =~= store.contacts@.skip(i + 1));
            }
            if store.contacts[i].user_id == user_id_param {
                out.push(store.contacts[i].clone());
                proof {
                    assert(contacts_of_spec(rest, user_id_param) == seq![rest[0]]
                        + contacts_of_spec(rest.drop_first(), user_id_param));
                    assert(pre + contacts_of_spec(rest, user_id_param) =~= out@
                        + contacts_of_spec(store.contacts@.skip(i + 1), user_id_param));
                }
            }
            i = i + 1;
        }
        proof {
            assert(store.contacts@.skip(n as int) =~= Seq::<Contact>::empty());
            assert(out@ + contacts_of_spec(store.contacts@.skip(n as int), user_id_param) =~= out@);
        }
        Ok(out)
    }

    /// Find a contact by id.
    pub fn find(store: &Store, id_param: i32) -> (r: Result<Contact, ApiError>)
        ensures
            match find_contact_spec(store.contacts@, id_param) {
                Some(c) => r == Ok::<Contact, ApiError>(c),
                None => r == Err::<Contact, ApiError>(ApiError::NotFound),
            },
    {
        match index_of_contact(store, id_param) {
            Option::Some(i) => Ok(store.contacts[i].clone()),
            Option::None => Err(ApiError::NotFound),
        }
    }

    /// Create a contact owned by the given user, which must exist.
    pub fn create(store: &mut Store, user_id_param: i32, new_contact: NewUpdateContact) -> (r:
        Result<Contact, ApiError>)
        requires
            old(store).wf(),
        ensures
            final(store).wf(),
            contact_create_post(*old(store), *final(store), user_id_param, new_contact, r),
    {
        let ghost s0 = *store;
        if !user_exists(store, user_id_param) {
            return Err(ApiError::NotFound);
        }
        let NewUpdateContact { lastname, firstname, email, phone } = new_contact;
        let (lastname, firstname, email, phone) = match (lastname, firstname, email, phone) {
            (Option::Some(a), Option::Some(b), Option::Some(c), Option::Some(d)) => (a, b, c, d),
            _ => {
                return Err(ApiError::NotValid);
            },
        };
        if store.next_contact_id == i32::MAX {
            return Err(ApiError::InternalServerError);
        }
        let id = store.next_contact_id;
        let contact = Contact { id, user_id: user_id_param, lastname, firstname, email, phone };
        let out = contact.clone();
        store.contacts.push(contact);
        store.next_contact_id = id + 1;
        proof {
            let s1 = *store;
            assert(s1.contacts@.last() == out);
            assert forall|i: int| 0 <= i < s1.contacts@.len() implies 1 <= (
            #[trigger] s1.contacts@[i]).id < s1.next_contact_id by {
                if i < s0.contacts@.len() {
                    assert(s1.contacts@[i] == s0.contacts@[i]);
                }
            }
            assert forall|i: int, j: int| 0 <= i < j < s1.contacts@.len() implies #[trigger] s1.contacts@[i].id != #[trigger] s1.contacts@[j].id by {
                if j < s0.contacts@.len() {
                    assert(s1.contacts@[i] == s0.contacts@[i] && s1.contacts@[j] == s0.contacts@[j]);
                } else {
                    assert(s1.contacts@[i] == s0.contacts@[i] && s1.contacts@[j] == out);
                }
            }
        }
        Ok(out)
    }

    /// Update the named fields of a contact; absent fields keep their
    /// value.
    pub fn update(store: &mut Store, id_param: i32, new_contact: NewUpdateContact) -> (r: Result<
        Contact,
        ApiError,
    >)
        requires
            old(store).wf(),
        ensures
            final(store).wf(),
            contact_update_post(*old(store), *final(store), id_param, new_contact, r),
    {
        let ghost s0 = *store;
        let idx = match index_of_contact(store, id_param) {
            Option::Some(i) => i,
            Option::None => {
                return Err(ApiError::NotFound);
            },
        };
        let c0 = store.contacts[idx].clone();
        let NewUpdateContact { lastname, firstname, email, phone } = new_contact;
        let lastname = match lastname {
            Option::Some(x) => x,
            Option::None => c0.lastname.clone(),
        };
        let firstname = match firstname {
            Option::Some(x) => x,
            Option::None => c0.firstname.clone(),
        };
        let email = match email {
            Option::Some(x) => x,
            Option::None => c0.email.clone(),
        };
        let phone = match phone {
            Option::Some(x) => x,
            Option::None => c0.phone.clone(),
        };
        let c2 = Contact { id: id_param, user_id: c0.user_id, lastname, firstname, email, phone };
        let out = c2.clone();
        store.contacts.remove(idx);
        store.contacts.insert(idx, c2);
        proof {
            let s1 = *store;
            s0.contacts@.remove_ensures(idx as int);
            s0.contacts@.remove(idx as int).insert_ensures(idx as int, out);
            assert(s1.contacts@ =~= s0.contacts@.update(idx as int, out));
            assert forall|k: int| 0 <= k < s1.contacts@.len() implies (#[trigger] s1.contacts@[k])
                == (if k == idx as int {
                out
            } else {
                s0.contacts@[k]
            }) by {}
            assert(s1.contacts_wf());
        }
        Ok(out)
    }

    /// Delete a contact; deleting an absent id is not an error and
    /// touches nothing.
    pub fn delete(store: &mut Store, id_param: i32) -> (r: Result<usize, ApiError>)
        requires
            old(store).wf(),
        ensures
            final(store).wf(),
            contact_delete_post(*old(store), *final(store), id_param, r),
    {
        let ghost s0 = *store;
        let idx = match index_of_contact(store, id_param) {
            Option::Some(i) => i,
            Option::None => {
                return Ok(0);
            },
        };
        store.contacts.remove(idx);
        proof {
            let s1 = *store;
            s0.contacts@.remove_ensures(idx as int);
            assert forall|k: int| 0 <= k < s1.contacts@.len() implies (#[trigger] s1.contacts@[k])
                == (if k < idx as int {
                s0.contacts@[k]
            } else {
                s0.contacts@[k + 1]
            }) by {}
            assert(s1.contacts_wf());
        }
        Ok(1)
    }
}

/// List a user's contacts; the administrator or that user alone.
pub fn get_all(claims: &Claims, store: &Store, id: i32) -> (r: Result<Vec<Contact>, ApiError>)
    ensures
        !claims.allows(id) ==> r == Err::<Vec<Contact>, ApiError>(ApiError::Forbidden),
        claims.allows(id) ==> r is Ok && r.unwrap()@ == contacts_of_spec(store.contacts@, id),
{
    if !claims.is_allowed(id) {
        return Err(ApiError::Forbidden);
    }
    Contact::all(store, id)
}

/// Fetch one contact; the administrator or its owner alone.
pub fn find(claims: &Claims, store: &Store, id: i32) -> (r: Result<Contact, ApiError>)
    ensures
        match find_contact_spec(store.contacts@, id) {
            None => r == Err::<Contact, ApiError>(ApiError::NotFound),
            Some(c) => if claims.allows(c.user_id) {
                r == Ok::<Contact, ApiError>(c)
            } else {
                r == Err::<Contact, ApiError>(ApiError::Forbidden)
            },
        },
{
    let c = match Contact::find(store, id) {
        Ok(c) => c,
        Err(e) => {
            return Err(e);
        },
    };
    if !claims.is_allowed(c.user_id) {
        return Err(ApiError::Forbidden);
    }
    Ok(c)
}

/// Create a contact for user `id`; the administrator or that user alone.
pub fn create(claims: &Claims, store: &mut Store, id: i32, new_contact: NewUpdateContact) -> (r:
    Result<Contact, ApiError>)
    requires
        old(store).wf(),
    ensures
        final(store).wf(),
        !claims.allows(id) ==> r == Err::<Contact, ApiError>(ApiError::Forbidden) && *final(store)
            == *old(store),
        claims.allows(id) ==> contact_create_post(*old(store), *final(store), id, new_contact, r),
{
    if !claims.is_allowed(id) {
        return Err(ApiError::Forbidden);
    }
    Contact::create(store, id, new_contact)
}

/// Update one contact; the administrator or its owner alone.
pub fn update(claims: &Claims, store: &mut Store, id: i32, contact: NewUpdateContact) -> (r: Result<
    Contact,
    ApiError,
>)
    requires
        old(store).wf(),
    ensures
        final(store).wf(),
        match find_contact_spec(old(store).contacts@, id) {
            None => r == Err::<Contact, ApiError>(ApiError::NotFound) && *final(store) == *old(
                store,
            ),
            Some(c0) => if claims.allows(c0.user_id) {
                contact_update_post(*old(store), *final(store), id, contact, r)
            } else {
                r == Err::<Contact, ApiError>(ApiError::Forbidden) && *final(store) == *old(store)
            },
        },
{
    let c0 = match Contact::find(store, id) {
        Ok(c) => c,
        Err(e) => {
            return Err(e);
        },
    };
    if !claims.is_allowed(c0.user_id) {
        return Err(ApiError::Forbidden);
    }
    Contact::update(store, id, contact)
}

/// Delete one contact; the administrator or its owner alone.
pub fn delete(claims: &Claims, store: &mut Store, id: i32) -> (r: Result<usize, ApiError>)
    requires
        old(store).wf(),
    ensures
        final(store).wf(),
        match find_contact_spec(old(store).contacts@, id) {
            None => r == Err::<usize, ApiError>(ApiError::NotFound) && *final(store) == *old(store),
            Some(c0) => if claims.allows(c0.user_id) {
                contact_delete_post(*old(store), *final(store), id, r)
            } else {
                r == Err::<usize, ApiError>(ApiError::Forbidden) && *final(store) == *old(store)
            },
        },
{
    let c0 = match Contact::find(store, id) {
        Ok(c) => c,
        Err(e) => {
            return Err(e);
        },
    };
    if !claims.is_allowed(c0.user_id) {
        return Err(ApiError::Forbidden);
    }
    Contact::delete(store, id)
}

} // verus!
