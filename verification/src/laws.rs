use vstd::prelude::*;
use crate::error::ApiError;
use crate::ident::lemma_number_of_decimal;
use crate::model::{listed, profile, record, FieldsView, NoticeView, ProfileView};
use crate::service::{
    create_answer, delete_answer, get_answer, list_answer, overwritten, update_answer,
};
use crate::store::{has_id, holds_at, index_of, lemma_index_of, StoreView};

verus! {

/// A create leaves the store well formed.
pub proof fn lemma_created_wf(s: StoreView, f: FieldsView)
    requires
        s.wf(),
    ensures
        s.created(f).wf(),
{
    lemma_number_of_decimal(s.next);
}

/// An overwrite leaves the store well formed.
pub proof fn lemma_overwritten_wf(s: StoreView, id: Seq<char>, f: FieldsView)
    requires
        s.wf(),
    ensures
        overwritten(s, id, f).wf(),
{
    if has_id(s.records, id) {
        let i = index_of(s.records, id);
        assert(holds_at(s.records, id, i));
    }
}

/// A delete leaves the store well formed.
pub proof fn lemma_deleted_wf(s: StoreView, id: Seq<char>)
    requires
        s.wf(),
    ensures
        s.deleted(id).wf(),
{
    if has_id(s.records, id) {
        let i = index_of(s.records, id);
        assert(holds_at(s.records, id, i));
    }
}

/// A user that was just created is found under its identifier, with the
/// name, username and email that it was created with.
pub proof fn law_get_after_create(s: StoreView, f: FieldsView)
    requires
        s.wf(),
        s.has_room(),
    ensures
        get_answer(s.created(f), s.fresh(f).id) == Ok::<ProfileView, ApiError>(
            (ProfileView { name: f.name, username: f.username, email: f.email }),
        ),
{
    lemma_created_wf(s, f);
    let after = s.created(f);
    assert(holds_at(after.records, s.fresh(f).id, s.records.len() as int));
    lemma_index_of(after.records, s.fresh(f).id, s.records.len() as int);
}

/// A successful create makes the list longer by exactly one entry, the
/// entry of the new user at its end.
pub proof fn law_list_after_create(s: StoreView, f: FieldsView)
    requires
        s.wf(),
        create_answer(s, f) is Ok,
    ensures
        list_answer(s.created(f)).len() == list_answer(s).len() + 1,
        list_answer(s.created(f)) == list_answer(s).push(listed(s.fresh(f))),
{
    assert(list_answer(s.created(f)) =~= list_answer(s).push(listed(s.fresh(f))));
}

/// A successful delete makes the list shorter by exactly one entry, the
/// entry of the deleted user.
pub proof fn law_list_after_delete(s: StoreView, id: Seq<char>)
    requires
        s.wf(),
        delete_answer(s, id) is Ok,
    ensures
        list_answer(s.deleted(id)).len() == list_answer(s).len() - 1,
        list_answer(s.deleted(id)) == list_answer(s).remove(index_of(s.records, id)),
{
    let i = index_of(s.records, id);
    assert(holds_at(s.records, id, i));
    assert(list_answer(s.deleted(id)) =~= list_answer(s).remove(i));
}

/// A create gives the new user an identifier that no user has.
pub proof fn law_fresh_identifier(s: StoreView, f: FieldsView)
    requires
        s.wf(),
    ensures
        !has_id(s.records, s.fresh(f).id),
{
    lemma_number_of_decimal(s.next);
    if has_id(s.records, s.fresh(f).id) {
        let i = index_of(s.records, s.fresh(f).id);
        assert(holds_at(s.records, s.fresh(f).id, i));
    }
}

/// A lookup of an identifier that no record has answers `NotFound`.
pub proof fn law_get_missing(s: StoreView, id: Seq<char>)
    requires
        !has_id(s.records, id),
    ensures
        get_answer(s, id) == Err::<ProfileView, ApiError>(ApiError::NotFound),
{
}

/// After an update of an existing user a lookup shows the new name, username
/// and email, and the record holds all four new fields: none keeps its
/// earlier value.
pub proof fn law_get_after_update(s: StoreView, id: Seq<char>, f: FieldsView)
    requires
        s.wf(),
        has_id(s.records, id),
    ensures
        update_answer(s, id, f) == Ok::<FieldsView, ApiError>(f),
        overwritten(s, id, f).found(id) == Some(record(id, f)),
        get_answer(overwritten(s, id, f), id) == Ok::<ProfileView, ApiError>(
            (ProfileView { name: f.name, username: f.username, email: f.email }),
        ),
{
    lemma_overwritten_wf(s, id, f);
    let i = index_of(s.records, id);
    assert(holds_at(s.records, id, i));
    let after = overwritten(s, id, f);
    assert(holds_at(after.records, id, i));
    lemma_index_of(after.records, id, i);
}

/// A delete of an identifier that no record has answers `NotFound` and
/// leaves the store as it was.
pub proof fn law_delete_missing(s: StoreView, id: Seq<char>)
    requires
        !has_id(s.records, id),
    ensures
        delete_answer(s, id) == Err::<NoticeView, ApiError>(ApiError::NotFound),
        s.deleted(id) == s,
{
}

/// After a delete a lookup of the same identifier answers `NotFound`.
pub proof fn law_get_after_delete(s: StoreView, id: Seq<char>)
    requires
        s.wf(),
    ensures
        get_answer(s.deleted(id), id) == Err::<ProfileView, ApiError>(ApiError::NotFound),
{
    if has_id(s.records, id) {
        let i = index_of(s.records, id);
        assert(holds_at(s.records, id, i));
        let after = s.deleted(id);
        if has_id(after.records, id) {
            let j = index_of(after.records, id);
            assert(holds_at(after.records, id, j));
            if j < i {
                assert(after.records[j] == s.records[j]);
            } else {
                assert(after.records[j] == s.records[j + 1]);
            }
            assert(false);
        }
    }
}

/// Every user in the store is found under its identifier, with its own name,
/// username and email.
pub proof fn law_get_stored(s: StoreView, i: int)
    requires
        s.wf(),
        0 <= i < s.records.len(),
    ensures
        s.found(s.records[i].id) == Some(s.records[i]),
        get_answer(s, s.records[i].id) == Ok::<ProfileView, ApiError>(profile(s.records[i])),
{
    assert(holds_at(s.records, s.records[i].id, i));
    lemma_index_of(s.records, s.records[i].id, i);
}

/// A create changes the answer to no lookup but that of the new identifier.
pub proof fn law_create_keeps_others(s: StoreView, f: FieldsView, id: Seq<char>)
    requires
        s.wf(),
        id != s.fresh(f).id,
    ensures
        get_answer(s.created(f), id) == get_answer(s, id),
{
    lemma_created_wf(s, f);
    let after = s.created(f);
    if has_id(s.records, id) {
        let i = index_of(s.records, id);
        assert(holds_at(s.records, id, i));
        assert(holds_at(after.records, id, i));
        lemma_index_of(after.records, id, i);
    } else if has_id(after.records, id) {
        let j = index_of(after.records, id);
        assert(holds_at(after.records, id, j));
        assert(holds_at(s.records, id, j));
    }
}

/// An update changes the answer to no lookup but that of its own target.
pub proof fn law_update_keeps_others(s: StoreView, target: Seq<char>, f: FieldsView, id: Seq<char>)
    requires
        s.wf(),
        id != target,
    ensures
        get_answer(overwritten(s, target, f), id) == get_answer(s, id),
{
    lemma_overwritten_wf(s, target, f);
    let after = overwritten(s, target, f);
    if has_id(s.records, target) {
        let k = index_of(s.records, target);
        assert(holds_at(s.records, target, k));
        if has_id(s.records, id) {
            let i = index_of(s.records, id);
            assert(holds_at(s.records, id, i));
            assert(holds_at(after.records, id, i));
            lemma_index_of(after.records, id, i);
        } else if has_id(after.records, id) {
            let j = index_of(after.records, id);
            assert(holds_at(after.records, id, j));
            assert(holds_at(s.records, id, j));
        }
    }
}

/// A delete changes the answer to no lookup but that of its own target.
pub proof fn law_delete_keeps_others(s: StoreView, target: Seq<char>, id: Seq<char>)
    requires
        s.wf(),
        id != target,
    ensures
        get_answer(s.deleted(target), id) == get_answer(s, id),
{
    lemma_deleted_wf(s, target);
    let after = s.deleted(target);
    if has_id(s.records, target) {
        let k = index_of(s.records, target);
        assert(holds_at(s.records, target, k));
        if has_id(s.records, id) {
            let i = index_of(s.records, id);
            assert(holds_at(s.records, id, i));
            let moved = if i < k {
                i
            } else {
                i - 1
            };
            assert(holds_at(after.records, id, moved));
            lemma_index_of(after.records, id, moved);
        } else if has_id(after.records, id) {
            let j = index_of(after.records, id);
            assert(holds_at(after.records, id, j));
            if j < k {
                assert(holds_at(s.records, id, j));
            } else {
                assert(holds_at(s.records, id, j + 1));
            }
        }
    }
}

} // verus!
