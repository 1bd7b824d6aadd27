use vstd::prelude::*;
use crate::error::StoreError;
use crate::ident::{decimal, lemma_number_of_decimal, number, render};
use crate::model::{record, records_view, FieldsView, User, UserView};
use crate::query::{apply_params, SetParam, StoreCall, StoreOutcome, UniqueWhere};

verus! {

/// Whether the record at position `i` has the identifier `id`.
pub open spec fn holds_at(records: Seq<UserView>, id: Seq<char>, i: int) -> bool {
    0 <= i < records.len() && records[i].id == id
}

/// Whether some record has the identifier `id`.
pub open spec fn has_id(records: Seq<UserView>, id: Seq<char>) -> bool {
    exists|i: int| holds_at(records, id, i)
}

/// The position of a record with the identifier `id`, where there is one.
pub open spec fn index_of(records: Seq<UserView>, id: Seq<char>) -> int {
    choose|i: int| holds_at(records, id, i)
}

/// No two records share an identifier.
pub open spec fn distinct_ids(records: Seq<UserView>) -> bool {
    forall|i: int, j: int|
        0 <= i < records.len() && 0 <= j < records.len() && i != j ==> records[i].id
            != records[j].id
}

/// Whether `id` is the numeral of a number below `next`.
pub open spec fn issued(id: Seq<char>, next: nat) -> bool {
    id == decimal(number(id)) && number(id) < next
}

/// The state of a store: its records in the order of their creation, and the
/// number whose numeral the next record gets as its identifier.
pub struct StoreView {
    pub records: Seq<UserView>,
    pub next: nat,
}

impl StoreView {
    /// Every identifier was issued by this store, and none twice.
    pub open spec fn wf(self) -> bool {
        &&& distinct_ids(self.records)
        &&& forall|i: int| 0 <= i < self.records.len() ==> issued(#[trigger] self.records[i].id, self.next)
    }

    /// Whether the store can still issue an identifier.
    pub open spec fn has_room(self) -> bool {
        self.next < u64::MAX
    }

    /// The record with the identifier `id`, if there is one.
    pub open spec fn found(self, id: Seq<char>) -> Option<UserView> {
        if has_id(self.records, id) {
            Some(self.records[index_of(self.records, id)])
        } else {
            None
        }
    }

    /// The record that a create with the fields `f` adds.
    pub open spec fn fresh(self, f: FieldsView) -> UserView {
        record(decimal(self.next), f)
    }

    /// The store after a create with the fields `f`.
    pub open spec fn created(self, f: FieldsView) -> StoreView {
        if self.has_room() {
            StoreView { records: self.records.push(self.fresh(f)), next: self.next + 1 }
        } else {
            self
        }
    }

    /// The store after the record `id` got the changes `ps`.
    pub open spec fn updated(self, id: Seq<char>, ps: Seq<SetParam>) -> StoreView {
        if has_id(self.records, id) {
            let i = index_of(self.records, id);
            StoreView { records: self.records.update(i, apply_params(self.records[i], ps)), ..self }
        } else {
            self
        }
    }

    /// The store after the record `id` was removed.
    pub open spec fn deleted(self, id: Seq<char>) -> StoreView {
        if has_id(self.records, id) {
            StoreView { records: self.records.remove(index_of(self.records, id)), ..self }
        } else {
            self
        }
    }

    /// The store after one call.
    pub open spec fn after(self, call: StoreCall) -> StoreView {
        match call {
            StoreCall::FindMany => self,
            StoreCall::FindUnique(_) => self,
            StoreCall::Create(n) => self.created(n@),
            StoreCall::Update(w, ps) => self.updated(w.target(), ps@),
            StoreCall::Delete(w) => self.deleted(w.target()),
        }
    }
}

/// Where identifiers are distinct, the position of an identifier is the one
/// place at which it stands.
pub proof fn lemma_index_of(records: Seq<UserView>, id: Seq<char>, i: int)
    requires
        distinct_ids(records),
        holds_at(records, id, i),
    ensures
        has_id(records, id),
        index_of(records, id) == i,
{
    let j = index_of(records, id);
    assert(holds_at(records, id, j));
}

/// Changing fields never changes the identifier.
pub proof fn lemma_params_keep_id(u: UserView, ps: Seq<SetParam>)
    ensures
        apply_params(u, ps).id == u.id,
    decreases ps.len(),
{
    if ps.len() > 0 {
        lemma_params_keep_id(u, ps.drop_last());
    }
}

/// A store of user records that lives in memory.
pub struct MemoryStore {
    rows: Vec<User>,
    next: u64,
}

impl View for MemoryStore {
    type V = StoreView;

    closed spec fn view(&self) -> StoreView {
        StoreView { records: records_view(self.rows@), next: self.next as nat }
    }
}

fn copy_user(u: &User) -> (r: User)
    ensures
        r@ == u@,
{
    User {
        id: u.id.clone(),
        name: u.name.clone(),
        username: u.username.clone(),
        email: u.email.clone(),
        password: u.password.clone(),
    }
}

fn with_params(u: &User, params: &Vec<SetParam>) -> (r: User)
    ensures
        r@ == apply_params(u@, params@),
{
    let mut current = copy_user(u);
    let mut i: usize = 0;
    while i < params.len()
        invariant
            i <= params.len(),
            current@ == apply_params(u@, params@.take(i as int)),
        decreases params.len() - i,
    {
        proof {
            assert(params@.take(i + 1).drop_last() =~= params@.take(i as int));
            assert(params@.take(i + 1).last() == params@[i as int]);
        }
        match &params[i] {
            SetParam::Name(v) => {
                current.name = v.clone();
            },
            SetParam::Username(v) => {
                current.username = v.clone();
            },
            SetParam::Email(v) => {
                current.email = v.clone();
            },
            SetParam::Password(v) => {
                current.password = v.clone();
            },
        }
        i = i + 1;
    }
    assert(params@.take(params.len() as int) =~= params@);
    current
}

impl MemoryStore {
    /// Whether the store is in a state that its own operations lead to.
    pub open spec fn wf(&self) -> bool {
        self@.wf()
    }

    /// An empty store.
    pub fn new() -> (r: MemoryStore)
        ensures
            r.wf(),
            r@.records == Seq::<UserView>::empty(),
            r@.next == 0,
    {
        let r = MemoryStore { rows: Vec::new(), next: 0 };
        assert(r@.records =~= Seq::<UserView>::empty());
        r
    }

    /// An empty store whose first record gets the numeral of `first` as its
    /// identifier.
    pub fn starting_at(first: u64) -> (r: MemoryStore)
        ensures
            r.wf(),
            r@.records == Seq::<UserView>::empty(),
            r@.next == first,
    {
        let r = MemoryStore { rows: Vec::new(), next: first };
        assert(r@.records =~= Seq::<UserView>::empty());
        r
    }

    fn position(&self, id: &String) -> (r: Option<usize>)
        requires
            self.wf(),
        ensures
            match r {
                Some(i) => holds_at(self@.records, id@, i as int) && index_of(self@.records, id@)
                    == i && has_id(self@.records, id@) && i < self.rows.len(),
                None => !has_id(self@.records, id@),
            },
    {
        let mut i: usize = 0;
        while i < self.rows.len()
            invariant
                i <= self.rows.len(),
                self.wf(),
                forall|j: int| 0 <= j < i ==> !holds_at(self@.records, id@, j),
            decreases self.rows.len() - i,
        {
            if self.rows[i].id == *id {
                proof {
                    assert(holds_at(self@.records, id@, i as int));
                    lemma_index_of(self@.records, id@, i as int);
                }
                return Some(i);
            }
            i = i + 1;
        }
        None
    }

    /// All records, in the order of their creation. This store never fails.
    pub fn find_many(&self) -> (r: Result<Vec<User>, StoreError>)
        ensures
            r is Ok,
            r->Ok_0@.len() == self@.records.len(),
            records_view(r->Ok_0@) == self@.records,
    {
        let mut all: Vec<User> = Vec::new();
        let mut i: usize = 0;
        while i < self.rows.len()
            invariant
                i <= self.rows.len(),
                all.len() == i,
                forall|j: int| 0 <= j < i ==> all[j]@ == self.rows[j]@,
            decreases self.rows.len() - i,
        {
            all.push(copy_user(&self.rows[i]));
            i = i + 1;
        }
        assert(records_view(all@) =~= self@.records);
        Ok(all)
    }

    /// The record that `target` selects, or `None`. This store never fails.
    pub fn find_unique(&self, target: &UniqueWhere) -> (r: Result<Option<User>, StoreError>)
        requires
            self.wf(),
        ensures
            r is Ok,
            match r->Ok_0 {
                Some(u) => self@.found(target.target()) == Some(u@),
                None => self@.found(target.target()) is None,
            },
    {
        match target {
            UniqueWhere::IdEquals(id) => {
                match self.position(id) {
                    Some(i) => Ok(Some(copy_user(&self.rows[i]))),
                    None => Ok(None),
                }
            },
        }
    }

    /// Adds a record with the given fields under a new identifier, the
    /// numeral of the count of records created so far, and returns it. Fails
    /// with `Constraint`, changing nothing, once that count has reached the
    /// greatest number the store can hold.
    pub fn create(&mut self, name: String, username: String, email: String, password: String) -> (r:
        Result<User, StoreError>)
        requires
            old(self).wf(),
        ensures
            final(self).wf(),
            final(self)@ == old(self)@.created(
                (FieldsView { name: name@, username: username@, email: email@, password: password@ }),
            ),
            old(self)@.has_room() ==> r is Ok && r->Ok_0@ == old(self)@.fresh(
                (FieldsView { name: name@, username: username@, email: email@, password: password@ }),
            ),
            !old(self)@.has_room() ==> r is Err && r->Err_0 == StoreError::Constraint,
    {
        if self.next == u64::MAX {
            return Err(StoreError::Constraint);
        }
        let id = render(self.next);
        let user = User { id, name, username, email, password };
        let copy = copy_user(&user);
        proof {
            lemma_number_of_decimal(self.next as nat);
            assert(records_view(self.rows@.push(user)) =~= records_view(self.rows@).push(user@));
        }
        self.rows.push(user);
        self.next = self.next + 1;
        Ok(copy)
    }

    /// Applies the changes, first to last, to the record that `target`
    /// selects and returns the record as it then stands. Fails with
    /// `RecordNotFound`, changing nothing, where there is no such record.
    pub fn update(&mut self, target: &UniqueWhere, params: Vec<SetParam>) -> (r: Result<
        User,
        StoreError,
    >)
        requires
            old(self).wf(),
        ensures
            final(self).wf(),
            final(self)@ == old(self)@.updated(target.target(), params@),
            match old(self)@.found(target.target()) {
                Some(u) => r is Ok && r->Ok_0@ == apply_params(u, params@),
                None => r is Err && r->Err_0 == StoreError::RecordNotFound,
            },
    {
        match target {
            UniqueWhere::IdEquals(id) => {
                match self.position(id) {
                    Some(i) => {
                        let changed = with_params(&self.rows[i], &params);
                        let copy = copy_user(&changed);
                        proof {
                            lemma_params_keep_id(self.rows[i as int]@, params@);
                            assert(records_view(self.rows@.update(i as int, changed))
                                =~= records_view(self.rows@).update(i as int, changed@));
                        }
                        self.rows.set(i, changed);
                        Ok(copy)
                    },
                    None => Err(StoreError::RecordNotFound),
                }
            },
        }
    }

    /// Removes the record that `target` selects and returns it; the others
    /// keep their order. Fails with `RecordNotFound`, changing nothing, where
    /// there is no such record.
    pub fn delete(&mut self, target: &UniqueWhere) -> (r: Result<User, StoreError>)
        requires
            old(self).wf(),
        ensures
            final(self).wf(),
            final(self)@ == old(self)@.deleted(target.target()),
            match old(self)@.found(target.target()) {
                Some(u) => r is Ok && r->Ok_0@ == u,
                None => r is Err && r->Err_0 == StoreError::RecordNotFound,
            },
    {
        match target {
            UniqueWhere::IdEquals(id) => {
                match self.position(id) {
                    Some(i) => {
                        proof {
                            assert(records_view(self.rows@.remove(i as int)) =~= records_view(
                                self.rows@,
                            ).remove(i as int));
                        }
                        let gone = self.rows.remove(i);
                        Ok(gone)
                    },
                    None => Err(StoreError::RecordNotFound),
                }
            },
        }
    }

    /// Makes one call and hands back what came of it, in the shape that
    /// belongs to the call.
    pub fn execute(&mut self, call: StoreCall) -> (r: StoreOutcome)
        requires
            old(self).wf(),
        ensures
            final(self).wf(),
            final(self)@ == old(self)@.after(call),
            match call {
                StoreCall::FindMany => r matches StoreOutcome::Many(v) && records_view(v@) == old(
                    self,
                )@.records,
                StoreCall::FindUnique(w) => match old(self)@.found(w.target()) {
                    Some(u) => r matches StoreOutcome::Maybe(Some(x)) && x@ == u,
                    None => r == StoreOutcome::Maybe(None),
                },
                StoreCall::Create(n) => match old(self)@.has_room() {
                    true => r matches StoreOutcome::One(u) && u@ == old(self)@.fresh(n@),
                    false => r == StoreOutcome::Failed(StoreError::Constraint),
                },
                StoreCall::Update(w, ps) => match old(self)@.found(w.target()) {
                    Some(u) => r matches StoreOutcome::One(x) && x@ == apply_params(u, ps@),
                    None => r == StoreOutcome::Failed(StoreError::RecordNotFound),
                },
                StoreCall::Delete(w) => match old(self)@.found(w.target()) {
                    Some(u) => r matches StoreOutcome::One(x) && x@ == u,
                    None => r == StoreOutcome::Failed(StoreError::RecordNotFound),
                },
            },
    {
        match call {
            StoreCall::FindMany => match self.find_many() {
                Ok(v) => StoreOutcome::Many(v),
                Err(e) => StoreOutcome::Failed(e),
            },
            StoreCall::FindUnique(w) => match self.find_unique(&w) {
                Ok(found) => StoreOutcome::Maybe(found),
                Err(e) => StoreOutcome::Failed(e),
            },
            StoreCall::Create(n) => match self.create(n.name, n.username, n.email, n.password) {
                Ok(u) => StoreOutcome::One(u),
                Err(e) => StoreOutcome::Failed(e),
            },
            StoreCall::Update(w, ps) => match self.update(&w, ps) {
                Ok(u) => StoreOutcome::One(u),
                Err(e) => StoreOutcome::Failed(e),
            },
            StoreCall::Delete(w) => match self.delete(&w) {
                Ok(u) => StoreOutcome::One(u),
                Err(e) => StoreOutcome::Failed(e),
            },
        }
    }
}

} // verus!
