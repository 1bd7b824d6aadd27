use vstd::prelude::*;
use crate::error::{classified, classify, ApiError, Operation};
use crate::handlers::{
    by_id, create_user, created_text, delete_user, deleted_text, entries_view, full_overwrite,
    get_user, get_users, index, listing, running_text, update_user,
};
use crate::model::{fields, notice, profile, GetUser, NewUser, ReturnUser, UpdateUser, UserVec};
use crate::query::{is_full_overwrite, StoreCall, StoreOutcome};
use crate::router::Route;

verus! {

/// What is sent back to the caller.
#[derive(Clone, Debug, PartialEq, Eq)]
pub enum Response {
    /// The plain text that answers the root path.
    Running(String),
    /// The user list.
    Users(Vec<UserVec>),
    /// The user that was looked up.
    User(GetUser),
    /// The user that was created.
    Created(ReturnUser),
    /// The user as it stands after the update.
    Updated(UpdateUser),
    /// The user that was deleted.
    Deleted(ReturnUser),
    /// The operation failed.
    Failed(ApiError),
    /// No route answers to the request.
    NoRoute,
    /// The route needs a body and the request has none that can be read.
    BadRequest,
}

/// What to do next with a request.
#[derive(Clone, Debug, PartialEq, Eq)]
pub enum Step {
    /// Send this response; the store is not asked.
    Reply(Response),
    /// Make this call to the store on behalf of this operation, then turn
    /// what comes back into the response.
    Ask(Operation, StoreCall),
}

/// HTTP status of a response.
pub open spec fn status_of_response(r: Response) -> u16 {
    match r {
        Response::Failed(ApiError::NotFound) => 404u16,
        Response::Failed(ApiError::Internal) => 500u16,
        Response::NoRoute => 404u16,
        Response::BadRequest => 400u16,
        _ => 200u16,
    }
}

impl Response {
    /// The HTTP status code that the response is sent with.
    pub fn status(&self) -> (r: u16)
        ensures
            r == status_of_response(*self),
    {
        match self {
            Response::Failed(e) => e.status(),
            Response::NoRoute => 404u16,
            Response::BadRequest => 400u16,
            _ => 200u16,
        }
    }
}

/// Decides what a routed request asks of the store. The root path and an
/// unmatched request are answered at once. A create or an update without a
/// body is refused at once; with one, an update sets every field.
pub fn plan(route: Route, body: Option<NewUser>) -> (r: Step)
    ensures
        match route {
            Route::Index => r matches Step::Reply(Response::Running(t)) && t@ == running_text(),
            Route::ListUsers => r == Step::Ask(Operation::List, StoreCall::FindMany),
            Route::GetUser(id) => r matches Step::Ask(Operation::Get, StoreCall::FindUnique(w))
                && w.target() == id@,
            Route::CreateUser => match body {
                Some(b) => r matches Step::Ask(Operation::Create, StoreCall::Create(n)) && n@
                    == b@,
                None => r == Step::Reply(Response::BadRequest),
            },
            Route::UpdateUser(id) => match body {
                Some(b) => r matches Step::Ask(Operation::Update, StoreCall::Update(w, ps))
                    && w.target() == id@ && is_full_overwrite(ps@, b@),
                None => r == Step::Reply(Response::BadRequest),
            },
            Route::DeleteUser(id) => r matches Step::Ask(Operation::Delete, StoreCall::Delete(w))
                && w.target() == id@,
            Route::Unmatched => r == Step::Reply(Response::NoRoute),
        },
{
    match route {
        Route::Index => Step::Reply(Response::Running(index())),
        Route::ListUsers => Step::Ask(Operation::List, StoreCall::FindMany),
        Route::GetUser(id) => Step::Ask(Operation::Get, StoreCall::FindUnique(by_id(id.as_str()))),
        Route::CreateUser => match body {
            Some(b) => Step::Ask(Operation::Create, StoreCall::Create(b)),
            None => Step::Reply(Response::BadRequest),
        },
        Route::UpdateUser(id) => match body {
            Some(b) => {
                let fields = UpdateUser {
                    name: b.name,
                    username: b.username,
                    email: b.email,
                    password: b.password,
                };
                Step::Ask(
                    Operation::Update,
                    StoreCall::Update(by_id(id.as_str()), full_overwrite(&fields)),
                )
            },
            None => Step::Reply(Response::BadRequest),
        },
        Route::DeleteUser(id) => Step::Ask(
            Operation::Delete,
            StoreCall::Delete(by_id(id.as_str())),
        ),
        Route::Unmatched => Step::Reply(Response::NoRoute),
    }
}

/// Whether `outcome` has the shape in which the store answers the one call
/// that `op` makes.
pub open spec fn answers(op: Operation, outcome: StoreOutcome) -> bool {
    match outcome {
        StoreOutcome::Many(_) => op == Operation::List,
        StoreOutcome::Maybe(_) => op == Operation::Get,
        StoreOutcome::One(_) => op == Operation::Create || op == Operation::Update || op
            == Operation::Delete,
        StoreOutcome::Failed(_) => true,
    }
}

/// Turns what came back from the store into the response of the operation.
/// An outcome of a shape that the operation's call never has counts as a
/// failure of the store: `Internal`.
pub fn respond(op: Operation, outcome: StoreOutcome) -> (r: Response)
    ensures
        !answers(op, outcome) ==> r == Response::Failed(ApiError::Internal),
        answers(op, outcome) ==> (match outcome {
            StoreOutcome::Many(users) => r matches Response::Users(v) && entries_view(v@)
                == listing(users@),
            StoreOutcome::Maybe(Some(u)) => r matches Response::User(g) && g@ == profile(u@),
            StoreOutcome::Maybe(None) => r == Response::Failed(ApiError::NotFound),
            StoreOutcome::One(u) => match op {
                Operation::Create => r matches Response::Created(n) && n@ == notice(
                    u@,
                    created_text(),
                ),
                Operation::Update => r matches Response::Updated(x) && x@ == fields(u@),
                _ => r matches Response::Deleted(n) && n@ == notice(u@, deleted_text()),
            },
            StoreOutcome::Failed(e) => r == Response::Failed(classified(op, e)),
        }),
{
    match outcome {
        StoreOutcome::Failed(e) => Response::Failed(classify(op, e)),
        StoreOutcome::Many(users) => match op {
            Operation::List => match get_users(Ok(users)) {
                Ok(v) => Response::Users(v),
                Err(e) => Response::Failed(e),
            },
            _ => Response::Failed(ApiError::Internal),
        },
        StoreOutcome::Maybe(found) => match op {
            Operation::Get => match get_user(Ok(found)) {
                Ok(g) => Response::User(g),
                Err(e) => Response::Failed(e),
            },
            _ => Response::Failed(ApiError::Internal),
        },
        StoreOutcome::One(u) => match op {
            Operation::Create => match create_user(Ok(u)) {
                Ok(n) => Response::Created(n),
                Err(e) => Response::Failed(e),
            },
            Operation::Update => match update_user(Ok(u)) {
                Ok(x) => Response::Updated(x),
                Err(e) => Response::Failed(e),
            },
            Operation::Delete => match delete_user(Ok(u)) {
                Ok(n) => Response::Deleted(n),
                Err(e) => Response::Failed(e),
            },
            _ => Response::Failed(ApiError::Internal),
        },
    }
}

} // verus!
