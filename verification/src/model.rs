use vstd::prelude::*;

verus! {

/// The stored user record.
#[derive(Clone, Debug, PartialEq, Eq)]
pub struct User {
    pub id: String,
    pub name: String,
    pub username: String,
    pub email: String,
    pub password: String,
}

/// What a `User` holds, as sequences of characters.
pub struct UserView {
    pub id: Seq<char>,
    pub name: Seq<char>,
    pub username: Seq<char>,
    pub email: Seq<char>,
    pub password: Seq<char>,
}

impl View for User {
    type V = UserView;

    open spec fn view(&self) -> UserView {
        UserView {
            id: self.id@,
            name: self.name@,
            username: self.username@,
            email: self.email@,
            password: self.password@,
        }
    }
}

/// The four fields that a caller supplies: what a `NewUser` or an
/// `UpdateUser` holds.
pub struct FieldsView {
    pub name: Seq<char>,
    pub username: Seq<char>,
    pub email: Seq<char>,
    pub password: Seq<char>,
}

/// Body of a create request.
#[derive(Clone, Debug, PartialEq, Eq)]
pub struct NewUser {
    pub name: String,
    pub username: String,
    pub email: String,
    pub password: String,
}

impl View for NewUser {
    type V = FieldsView;

    open spec fn view(&self) -> FieldsView {
        FieldsView {
            name: self.name@,
            username: self.username@,
            email: self.email@,
            password: self.password@,
        }
    }
}

/// Body of an update request, and the answer to it. The password is part of
/// the answer.
#[derive(Clone, Debug, PartialEq, Eq)]
pub struct UpdateUser {
    pub name: String,
    pub username: String,
    pub email: String,
    pub password: String,
}

impl View for UpdateUser {
    type V = FieldsView;

    open spec fn view(&self) -> FieldsView {
        FieldsView {
            name: self.name@,
            username: self.username@,
            email: self.email@,
            password: self.password@,
        }
    }
}

/// One entry of the user list: the record without its password.
#[derive(Clone, Debug, PartialEq, Eq)]
pub struct UserVec {
    pub id: String,
    pub name: String,
    pub username: String,
    pub email: String,
}

/// What a `UserVec` holds.
pub struct ListedView {
    pub id: Seq<char>,
    pub name: Seq<char>,
    pub username: Seq<char>,
    pub email: Seq<char>,
}

impl View for UserVec {
    type V = ListedView;

    open spec fn view(&self) -> ListedView {
        ListedView { id: self.id@, name: self.name@, username: self.username@, email: self.email@ }
    }
}

/// Answer to a lookup of one user: neither the id nor the password.
#[derive(Clone, Debug, PartialEq, Eq)]
pub struct GetUser {
    pub name: String,
    pub username: String,
    pub email: String,
}

/// What a `GetUser` holds.
pub struct ProfileView {
    pub name: Seq<char>,
    pub username: Seq<char>,
    pub email: Seq<char>,
}

impl View for GetUser {
    type V = ProfileView;

    open spec fn view(&self) -> ProfileView {
        ProfileView { name: self.name@, username: self.username@, email: self.email@ }
    }
}

/// Answer to a create or a delete: the public fields and a message.
#[derive(Clone, Debug, PartialEq, Eq)]
pub struct ReturnUser {
    pub name: String,
    pub username: String,
    pub email: String,
    pub message: String,
}

/// What a `ReturnUser` holds.
pub struct NoticeView {
    pub name: Seq<char>,
    pub username: Seq<char>,
    pub email: Seq<char>,
    pub message: Seq<char>,
}

impl View for ReturnUser {
    type V = NoticeView;

    open spec fn view(&self) -> NoticeView {
        NoticeView {
            name: self.name@,
            username: self.username@,
            email: self.email@,
            message: self.message@,
        }
    }
}

/// The list entry of a record.
pub open spec fn listed(u: UserView) -> ListedView {
    ListedView { id: u.id, name: u.name, username: u.username, email: u.email }
}

/// The lookup answer of a record.
pub open spec fn profile(u: UserView) -> ProfileView {
    ProfileView { name: u.name, username: u.username, email: u.email }
}

/// The public fields of a record together with `message`.
pub open spec fn notice(u: UserView, message: Seq<char>) -> NoticeView {
    NoticeView { name: u.name, username: u.username, email: u.email, message }
}

/// The four caller-supplied fields of a record.
pub open spec fn fields(u: UserView) -> FieldsView {
    FieldsView { name: u.name, username: u.username, email: u.email, password: u.password }
}

/// The record with identifier `id` and the fields `f`.
pub open spec fn record(id: Seq<char>, f: FieldsView) -> UserView {
    UserView { id, name: f.name, username: f.username, email: f.email, password: f.password }
}

/// The views of a list of records, in order.
pub open spec fn records_view(v: Seq<User>) -> Seq<UserView> {
    Seq::new(v.len(), |i: int| v[i]@)
}

} // verus!
