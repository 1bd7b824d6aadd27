use vstd::prelude::*;
use crate::error::StoreError;
use crate::model::{record, FieldsView, NewUser, User, UserView};

verus! {

/// Selects at most one record.
#[derive(Clone, Debug, PartialEq, Eq)]
pub enum UniqueWhere {
    /// The record whose identifier equals the given text.
    IdEquals(String),
}

impl UniqueWhere {
    /// The identifier that the selection asks for.
    pub open spec fn target(&self) -> Seq<char> {
        match self {
            UniqueWhere::IdEquals(id) => id@,
        }
    }
}

/// Overwrites one field of a record. The identifier cannot be set.
#[derive(Clone, Debug, PartialEq, Eq)]
pub enum SetParam {
    Name(String),
    Username(String),
    Email(String),
    Password(String),
}

/// One call to the store. Every operation makes exactly one.
#[derive(Clone, Debug, PartialEq, Eq)]
pub enum StoreCall {
    /// All records.
    FindMany,
    /// The selected record, if there is one.
    FindUnique(UniqueWhere),
    /// A new record with these fields.
    Create(NewUser),
    /// These changes to the selected record.
    Update(UniqueWhere, Vec<SetParam>),
    /// The removal of the selected record.
    Delete(UniqueWhere),
}

/// What came back from a call to the store.
#[derive(Clone, Debug, PartialEq, Eq)]
pub enum StoreOutcome {
    /// The records that were found, in the store's order.
    Many(Vec<User>),
    /// The record that was looked up, or none.
    Maybe(Option<User>),
    /// The record that was created, changed or removed.
    One(User),
    /// The call failed.
    Failed(StoreError),
}

/// A record after one field was overwritten.
pub open spec fn apply_param(u: UserView, p: SetParam) -> UserView {
    match p {
        SetParam::Name(v) => UserView { name: v@, ..u },
        SetParam::Username(v) => UserView { username: v@, ..u },
        SetParam::Email(v) => UserView { email: v@, ..u },
        SetParam::Password(v) => UserView { password: v@, ..u },
    }
}

/// A record after the fields were overwritten one after another, first to last.
pub open spec fn apply_params(u: UserView, ps: Seq<SetParam>) -> UserView
    decreases ps.len(),
{
    if ps.len() == 0 {
        u
    } else {
        apply_param(apply_params(u, ps.drop_last()), ps.last())
    }
}

/// Whether `ps` is the full overwrite with the fields `f`: name, username,
/// email and password, in that order.
pub open spec fn is_full_overwrite(ps: Seq<SetParam>, f: FieldsView) -> bool {
    &&& ps.len() == 4
    &&& ps[0] matches SetParam::Name(v) && v@ == f.name
    &&& ps[1] matches SetParam::Username(v) && v@ == f.username
    &&& ps[2] matches SetParam::Email(v) && v@ == f.email
    &&& ps[3] matches SetParam::Password(v) && v@ == f.password
}

/// A full overwrite leaves the identifier and replaces every other field.
pub proof fn lemma_full_overwrite(u: UserView, ps: Seq<SetParam>, f: FieldsView)
    requires
        is_full_overwrite(ps, f),
    ensures
        apply_params(u, ps) == record(u.id, f),
{
    let p3 = ps.drop_last();
    let p2 = p3.drop_last();
    let p1 = p2.drop_last();
    let p0 = p1.drop_last();
    assert(p0.len() == 0);
    assert(apply_params(u, p0) == u);
    assert(apply_params(u, p1) == apply_param(u, ps[0]));
    assert(apply_params(u, p2) == apply_param(apply_params(u, p1), ps[1]));
    assert(apply_params(u, p3) == apply_param(apply_params(u, p2), ps[2]));
    assert(apply_params(u, ps) == apply_param(apply_params(u, p3), ps[3]));
}

} // verus!
