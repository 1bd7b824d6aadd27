use vstd::prelude::*;
use crate::error::{classified, classify, ApiError, Operation, StoreError};
use crate::model::{
    fields, listed, notice, profile, GetUser, ListedView, ReturnUser, UpdateUser, User, UserVec,
};
use crate::query::{is_full_overwrite, SetParam, UniqueWhere};

verus! {

/// The text that answers a request for the root path.
pub open spec fn running_text() -> Seq<char> {
    "API is running"@
}

/// The message of the answer to a create.
pub open spec fn created_text() -> Seq<char> {
    "User created successfully"@
}

/// The message of the answer to a delete.
pub open spec fn deleted_text() -> Seq<char> {
    "User deleted successfully"@
}

/// The list entries of `users`, in the same order.
pub open spec fn listing(users: Seq<User>) -> Seq<ListedView> {
    Seq::new(users.len(), |i: int| listed(users[i]@))
}

/// The views of list entries, in order.
pub open spec fn entries_view(entries: Seq<UserVec>) -> Seq<ListedView> {
    Seq::new(entries.len(), |i: int| entries[i]@)
}

/// Answers a request for the root path.
pub fn index() -> (r: String)
    ensures
        r@ == running_text(),
{
    "API is running".to_owned()
}

/// The selection of the record with identifier `id`, as lookup, update and
/// delete hand it to the store.
pub fn by_id(id: &str) -> (r: UniqueWhere)
    ensures
        r.target() == id@,
{
    UniqueWhere::IdEquals(id.to_owned())
}

/// The changes that an update hands to the store: every field of the body is
/// set, none is left as it was.
pub fn full_overwrite(body: &UpdateUser) -> (r: Vec<SetParam>)
    ensures
        is_full_overwrite(r@, body@),
{
    let mut params: Vec<SetParam> = Vec::new();
    params.push(SetParam::Name(body.name.clone()));
    params.push(SetParam::Username(body.username.clone()));
    params.push(SetParam::Email(body.email.clone()));
    params.push(SetParam::Password(body.password.clone()));
    params
}

/// Turns what the store found into the user list: one entry per record, in
/// the store's order, without passwords. Any failure is `Internal`.
pub fn get_users(found: Result<Vec<User>, StoreError>) -> (r: Result<Vec<UserVec>, ApiError>)
    ensures
        match found {
            Ok(users) => r is Ok && r->Ok_0@.len() == users@.len() && entries_view(r->Ok_0@)
                == listing(users@),
            Err(e) => r is Err && r->Err_0 == classified(Operation::List, e),
        },
        found is Err ==> r->Err_0 == ApiError::Internal,
{
    match found {
        Ok(users) => {
            let mut user_vec: Vec<UserVec> = Vec::new();
            let mut i: usize = 0;
            while i < users.len()
                invariant
                    i <= users.len(),
                    user_vec.len() == i,
                    forall|j: int| 0 <= j < i ==> #[trigger] user_vec[j]@ == listed(users[j]@),
                decreases users.len() - i,
            {
                let user = &users[i];
                user_vec.push(
                    UserVec {
                        id: user.id.clone(),
                        name: user.name.clone(),
                        username: user.username.clone(),
                        email: user.email.clone(),
                    },
                );
                i = i + 1;
            }
            assert(entries_view(user_vec@) =~= listing(users@));
            Ok(user_vec)
        },
        Err(e) => Err(classify(Operation::List, e)),
    }
}

/// Turns the outcome of a lookup into the answer: the name, username and
/// email of the record that was found, `NotFound` where there is none, and
/// `Internal` where the lookup itself failed.
pub fn get_user(found: Result<Option<User>, StoreError>) -> (r: Result<GetUser, ApiError>)
    ensures
        match found {
            Ok(Some(user)) => r is Ok && r->Ok_0@ == profile(user@),
            Ok(None) => r is Err && r->Err_0 == ApiError::NotFound,
            Err(e) => r is Err && r->Err_0 == classified(Operation::Get, e),
        },
{
    match found {
        Ok(Some(user)) => Ok(GetUser { name: user.name, username: user.username, email: user.email }),
        Ok(None) => Err(ApiError::NotFound),
        Err(e) => Err(classify(Operation::Get, e)),
    }
}

/// Turns the outcome of a create into the answer: the public fields of the
/// new record with the message of success. Any failure is `Internal`.
pub fn create_user(created: Result<User, StoreError>) -> (r: Result<ReturnUser, ApiError>)
    ensures
        match created {
            Ok(user) => r is Ok && r->Ok_0@ == notice(user@, created_text()),
            Err(e) => r is Err && r->Err_0 == classified(Operation::Create, e),
        },
        created is Err ==> r->Err_0 == ApiError::Internal,
{
    match created {
        Ok(user) => Ok(
            ReturnUser {
                name: user.name,
                username: user.username,
                email: user.email,
                message: "User created successfully".to_owned(),
            },
        ),
        Err(e) => Err(classify(Operation::Create, e)),
    }
}

/// Turns the outcome of an update into the answer: the four fields of the
/// record as it now stands, the password among them. A missing record is
/// `NotFound`, any other failure `Internal`.
pub fn update_user(updated: Result<User, StoreError>) -> (r: Result<UpdateUser, ApiError>)
    ensures
        match updated {
            Ok(user) => r is Ok && r->Ok_0@ == fields(user@),
            Err(e) => r is Err && r->Err_0 == classified(Operation::Update, e),
        },
{
    match updated {
        Ok(user) => Ok(
            UpdateUser {
                name: user.name,
                username: user.username,
                email: user.email,
                password: user.password,
            },
        ),
        Err(e) => Err(classify(Operation::Update, e)),
    }
}

/// Turns the outcome of a delete into the answer: the public fields of the
/// record that was removed with the message of success. A missing record is
/// `NotFound`, any other failure `Internal`; no outcome ends the process.
pub fn delete_user(deleted: Result<User, StoreError>) -> (r: Result<ReturnUser, ApiError>)
    ensures
        match deleted {
            Ok(user) => r is Ok && r->Ok_0@ == notice(user@, deleted_text()),
            Err(e) => r is Err && r->Err_0 == classified(Operation::Delete, e),
        },
{
    match deleted {
        Ok(user) => Ok(
            ReturnUser {
                name: user.name,
                username: user.username,
                email: user.email,
                message: "User deleted successfully".to_owned(),
            },
        ),
        Err(e) => Err(classify(Operation::Delete, e)),
    }
}

} // verus!
