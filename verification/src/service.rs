use vstd::prelude::*;
use crate::dispatch::{plan, respond, Response, Step};
use crate::error::ApiError;
use crate::handlers::{
    by_id, create_user, created_text, delete_user, deleted_text, entries_view, full_overwrite,
    get_user, get_users, running_text, update_user,
};
use crate::model::{
    listed, notice, profile, record, FieldsView, GetUser, ListedView, NewUser, NoticeView,
    ProfileView, ReturnUser, UpdateUser, UserVec, UserView,
};
use crate::query::{is_full_overwrite, lemma_full_overwrite, SetParam, StoreCall};
use crate::router::{route, routed, Method, RouteView};
use crate::store::{has_id, holds_at, index_of, MemoryStore, StoreView};

verus! {

/// The answer to a request for the list: one entry per record, in order.
pub open spec fn list_answer(s: StoreView) -> Seq<ListedView> {
    Seq::new(s.records.len(), |i: int| listed(s.records[i]))
}

/// The answer to a lookup of `id`.
pub open spec fn get_answer(s: StoreView, id: Seq<char>) -> Result<ProfileView, ApiError> {
    match s.found(id) {
        Some(u) => Ok(profile(u)),
        None => Err(ApiError::NotFound),
    }
}

/// The answer to a create with the fields `f`.
pub open spec fn create_answer(s: StoreView, f: FieldsView) -> Result<NoticeView, ApiError> {
    if s.has_room() {
        Ok(notice(s.fresh(f), created_text()))
    } else {
        Err(ApiError::Internal)
    }
}

/// The answer to an update of `id` with the fields `f`.
pub open spec fn update_answer(s: StoreView, id: Seq<char>, f: FieldsView) -> Result<
    FieldsView,
    ApiError,
> {
    match s.found(id) {
        Some(_) => Ok(f),
        None => Err(ApiError::NotFound),
    }
}

/// The answer to a delete of `id`.
pub open spec fn delete_answer(s: StoreView, id: Seq<char>) -> Result<NoticeView, ApiError> {
    match s.found(id) {
        Some(u) => Ok(notice(u, deleted_text())),
        None => Err(ApiError::NotFound),
    }
}

/// Whether `r` carries the answer `a` to a lookup.
pub open spec fn shows_profile(r: Response, a: Result<ProfileView, ApiError>) -> bool {
    match a {
        Ok(p) => r matches Response::User(g) && g@ == p,
        Err(e) => r == Response::Failed(e),
    }
}

/// Whether `r` carries the answer `a` to a create.
pub open spec fn shows_created(r: Response, a: Result<NoticeView, ApiError>) -> bool {
    match a {
        Ok(n) => r matches Response::Created(c) && c@ == n,
        Err(e) => r == Response::Failed(e),
    }
}

/// Whether `r` carries the answer `a` to an update.
pub open spec fn shows_updated(r: Response, a: Result<FieldsView, ApiError>) -> bool {
    match a {
        Ok(f) => r matches Response::Updated(u) && u@ == f,
        Err(e) => r == Response::Failed(e),
    }
}

/// Whether `r` carries the answer `a` to a delete.
pub open spec fn shows_deleted(r: Response, a: Result<NoticeView, ApiError>) -> bool {
    match a {
        Ok(n) => r matches Response::Deleted(d) && d@ == n,
        Err(e) => r == Response::Failed(e),
    }
}

/// The state of the service after a request.
pub open spec fn state_after(
    s: StoreView,
    method: Method,
    path: Seq<char>,
    body: Option<NewUser>,
) -> StoreView {
    match (routed(method, path), body) {
        (RouteView::CreateUser, Some(b)) => s.created(b@),
        (RouteView::UpdateUser(id), Some(b)) => overwritten(s, id, b@),
        (RouteView::DeleteUser(id), _) => s.deleted(id),
        _ => s,
    }
}

/// Whether `r` is the response to a request that met the service in the
/// state `s`.
pub open spec fn is_response(
    s: StoreView,
    method: Method,
    path: Seq<char>,
    body: Option<NewUser>,
    r: Response,
) -> bool {
    match routed(method, path) {
        RouteView::Index => r matches Response::Running(t) && t@ == running_text(),
        RouteView::ListUsers => r matches Response::Users(v) && entries_view(v@) == list_answer(s),
        RouteView::GetUser(id) => shows_profile(r, get_answer(s, id)),
        RouteView::CreateUser => match body {
            Some(b) => shows_created(r, create_answer(s, b@)),
            None => r == Response::BadRequest,
        },
        RouteView::UpdateUser(id) => match body {
            Some(b) => shows_updated(r, update_answer(s, id, b@)),
            None => r == Response::BadRequest,
        },
        RouteView::DeleteUser(id) => shows_deleted(r, delete_answer(s, id)),
        RouteView::Unmatched => r == Response::NoRoute,
    }
}

/// The store after every field of the record `id` but its identifier was
/// replaced by `f`; the store itself where there is no such record.
pub open spec fn overwritten(s: StoreView, id: Seq<char>, f: FieldsView) -> StoreView {
    if has_id(s.records, id) {
        StoreView { records: s.records.update(index_of(s.records, id), record(id, f)), ..s }
    } else {
        s
    }
}

/// Handing the store a full overwrite replaces the record's fields.
pub proof fn lemma_updated_is_overwritten(
    s: StoreView,
    id: Seq<char>,
    ps: Seq<SetParam>,
    f: FieldsView,
)
    requires
        is_full_overwrite(ps, f),
    ensures
        s.updated(id, ps) == overwritten(s, id, f),
{
    if has_id(s.records, id) {
        let i = index_of(s.records, id);
        assert(holds_at(s.records, id, i));
        lemma_full_overwrite(s.records[i], ps, f);
    }
}

/// The five operations on users over a store in memory. Each one asks the
/// store once and turns what comes back into its answer.
pub struct Service {
    store: MemoryStore,
}

impl View for Service {
    type V = StoreView;

    closed spec fn view(&self) -> StoreView {
        self.store@
    }
}

impl Service {
    /// Whether the service is in a state that its own operations lead to.
    pub open spec fn wf(&self) -> bool {
        self@.wf()
    }

    /// A service without users.
    pub fn new() -> (r: Service)
        ensures
            r.wf(),
            r@.records == Seq::<UserView>::empty(),
            r@.next == 0,
    {
        Service { store: MemoryStore::new() }
    }

    /// A service without users whose first user gets the numeral of `first`
    /// as its identifier.
    pub fn starting_at(first: u64) -> (r: Service)
        ensures
            r.wf(),
            r@.records == Seq::<UserView>::empty(),
            r@.next == first,
    {
        Service { store: MemoryStore::starting_at(first) }
    }

    /// Lists all users, in the order of their creation.
    pub fn list(&self) -> (r: Result<Vec<UserVec>, ApiError>)
        ensures
            r is Ok,
            r->Ok_0@.len() == self@.records.len(),
            entries_view(r->Ok_0@) == list_answer(self@),
    {
        let found = self.store.find_many();
        let r = get_users(found);
        proof {
            assert(entries_view(r->Ok_0@).len() == r->Ok_0@.len());
            assert(entries_view(r->Ok_0@) =~= list_answer(self@));
        }
        r
    }

    /// Looks one user up by its identifier.
    pub fn get(&self, id: &str) -> (r: Result<GetUser, ApiError>)
        requires
            self.wf(),
        ensures
            match r {
                Ok(p) => get_answer(self@, id@) == Ok::<ProfileView, ApiError>(p@),
                Err(e) => get_answer(self@, id@) == Err::<ProfileView, ApiError>(e),
            },
    {
        let target = by_id(id);
        get_user(self.store.find_unique(&target))
    }

    /// Creates a user with the fields of `body`.
    pub fn create(&mut self, body: &NewUser) -> (r: Result<ReturnUser, ApiError>)
        requires
            old(self).wf(),
        ensures
            final(self).wf(),
            final(self)@ == old(self)@.created(body@),
            match r {
                Ok(n) => create_answer(old(self)@, body@) == Ok::<NoticeView, ApiError>(n@),
                Err(e) => create_answer(old(self)@, body@) == Err::<NoticeView, ApiError>(e),
            },
    {
        let created = self.store.create(
            body.name.clone(),
            body.username.clone(),
            body.email.clone(),
            body.password.clone(),
        );
        create_user(created)
    }

    /// Replaces every field of the user `id` by the fields of `body`.
    pub fn update(&mut self, id: &str, body: &UpdateUser) -> (r: Result<UpdateUser, ApiError>)
        requires
            old(self).wf(),
        ensures
            final(self).wf(),
            final(self)@ == overwritten(old(self)@, id@, body@),
            match r {
                Ok(u) => update_answer(old(self)@, id@, body@) == Ok::<FieldsView, ApiError>(u@),
                Err(e) => update_answer(old(self)@, id@, body@) == Err::<FieldsView, ApiError>(e),
            },
    {
        let target = by_id(id);
        let params = full_overwrite(body);
        proof {
            lemma_updated_is_overwritten(self@, id@, params@, body@);
            if has_id(self@.records, id@) {
                let i = index_of(self@.records, id@);
                assert(holds_at(self@.records, id@, i));
                lemma_full_overwrite(self@.records[i], params@, body@);
            }
        }
        update_user(self.store.update(&target, params))
    }

    /// Deletes the user `id`. A missing user is an answer like any other:
    /// the service goes on.
    pub fn delete(&mut self, id: &str) -> (r: Result<ReturnUser, ApiError>)
        requires
            old(self).wf(),
        ensures
            final(self).wf(),
            final(self)@ == old(self)@.deleted(id@),
            match r {
                Ok(n) => delete_answer(old(self)@, id@) == Ok::<NoticeView, ApiError>(n@),
                Err(e) => delete_answer(old(self)@, id@) == Err::<NoticeView, ApiError>(e),
            },
    {
        let target = by_id(id);
        delete_user(self.store.delete(&target))
    }

    /// Serves one request: finds its route, makes the one call to the store
    /// that the operation needs, and turns what came back into the response.
    /// The body is read by create and update only.
    pub fn handle(&mut self, method: Method, path: &str, body: Option<NewUser>) -> (r: Response)
        requires
            old(self).wf(),
        ensures
            final(self).wf(),
            final(self)@ == state_after(old(self)@, method, path@, body),
            is_response(old(self)@, method, path@, body, r),
    {
        let found = route(method, path);
        match plan(found, body) {
            Step::Reply(r) => r,
            Step::Ask(op, call) => {
                proof {
                    if call is Update {
                        let f = body->Some_0@;
                        let id = call->Update_0.target();
                        let ps = call->Update_1@;
                        lemma_updated_is_overwritten(self@, id, ps, f);
                        if has_id(self@.records, id) {
                            let i = index_of(self@.records, id);
                            assert(holds_at(self@.records, id, i));
                            lemma_full_overwrite(self@.records[i], ps, f);
                        }
                    }
                }
                let outcome = self.store.execute(call);
                let r = respond(op, outcome);
                proof {
                    if call is FindMany {
                        assert(entries_view(r->Users_0@) =~= list_answer(old(self)@));
                    }
                }
                r
            },
        }
    }
}

} // verus!
