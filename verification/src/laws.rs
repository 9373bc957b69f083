//! What holds of every table, whatever was done to it.
//!
//! The contracts of [`crate::query::Query`] and [`crate::mutation::Mutation`]
//! say what each call does in terms of the table's model. The lemmas here say
//! what those model operations amount to: that the table behaves as a map
//! from id to row, that every operation keeps it valid, and what sequences of
//! operations add up to.

use vstd::prelude::*;
use crate::model::{PatchModel, TodoModel};
use crate::paging::{
    lemma_page_bounds_are_in_range, lemma_page_in_range, lemma_total_pages_is_ceiling, page_of,
    total_pages,
};
use crate::store::{Change, StoreModel};

verus! {

/// A patch leaves a field alone unless it holds a value for it, never touches
/// the id, and applying it a second time changes nothing more.
pub proof fn lemma_patch_overwrites_present_fields_only(row: TodoModel, patch: PatchModel)
    ensures
        row.patched(patch).id == row.id,
        patch.text is None ==> row.patched(patch).text == row.text,
        patch.completed is None ==> row.patched(patch).completed == row.completed,
        patch.text matches Some(text) ==> row.patched(patch).text == text,
        patch.completed matches Some(completed) ==> row.patched(patch).completed == completed,
        row.patched(patch).patched(patch) == row.patched(patch),
        patch.text is None && patch.completed is None ==> row.patched(patch) == row,
{
}

/// For an id that no row has, a lookup finds nothing, and an update and a
/// delete leave the table exactly as it was.
pub proof fn lemma_absent_id_changes_nothing(s: StoreModel, id: int, patch: PatchModel)
    requires
        !s.contains(id),
    ensures
        s.find(id) is None,
        s.updated(id, patch) == s,
        s.deleted(id) == s,
{
}

/// A create keeps the table valid and adds one row: the fresh row, under an
/// id that no row had.
pub proof fn lemma_create_adds_fresh_row(s: StoreModel, text: Seq<char>)
    requires
        s.wf(),
        !s.exhausted(),
    ensures
        s.created(text).wf(),
        s.created(text).last_id == s.last_id + 1,
        s.created(text).rows.len() == s.rows.len() + 1,
        !s.contains(s.last_id + 1),
        s.created(text).find(s.last_id + 1) == Some(s.fresh_row(text)),
        s.fresh_row(text).completed == false,
        s.fresh_row(text).text == text,
{
    s.created(text).lemma_position(s.last_id + 1, s.rows.len() as int);
}

/// A create leaves every row that was there as it was.
pub proof fn lemma_create_keeps_rows(s: StoreModel, text: Seq<char>, id: int)
    requires
        s.wf(),
        !s.exhausted(),
        id != s.last_id + 1,
    ensures
        s.created(text).find(id) == s.find(id),
{
    lemma_create_adds_fresh_row(s, text);
    if s.contains(id) {
        s.created(text).lemma_position(id, s.position(id));
    }
}

/// An update of a row that is there keeps the table valid, changes that row
/// to its patched form, and neither adds nor removes a row.
pub proof fn lemma_update_changes_the_row(s: StoreModel, id: int, patch: PatchModel)
    requires
        s.wf(),
        s.contains(id),
    ensures
        s.updated(id, patch).wf(),
        s.updated(id, patch).last_id == s.last_id,
        s.updated(id, patch).rows.len() == s.rows.len(),
        s.updated(id, patch).find(id) == Some(s.row(id).patched(patch)),
{
    s.updated(id, patch).lemma_position(id, s.position(id));
}

/// An update leaves every other row as it was.
pub proof fn lemma_update_keeps_other_rows(s: StoreModel, id: int, patch: PatchModel, other: int)
    requires
        s.wf(),
        other != id,
    ensures
        s.updated(id, patch).find(other) == s.find(other),
{
    if s.contains(id) {
        lemma_update_changes_the_row(s, id, patch);
        if s.contains(other) {
            s.updated(id, patch).lemma_position(other, s.position(other));
        }
    }
}

/// Updating a row a second time with the same fields changes nothing more.
pub proof fn lemma_update_twice_is_update_once(s: StoreModel, id: int, patch: PatchModel)
    requires
        s.wf(),
    ensures
        s.updated(id, patch).updated(id, patch) == s.updated(id, patch),
{
    if s.contains(id) {
        lemma_update_changes_the_row(s, id, patch);
        let once = s.updated(id, patch);
        once.lemma_position(id, s.position(id));
        assert(once.updated(id, patch).rows == once.rows);
    }
}

/// An update that holds no field changes nothing.
pub proof fn lemma_update_without_fields_changes_nothing(s: StoreModel, id: int)
    requires
        s.wf(),
    ensures
        s.updated(id, PatchModel { text: None, completed: None }) == s,
{
    let patch = PatchModel { text: None, completed: None };
    if s.contains(id) {
        assert(s.updated(id, patch).rows == s.rows);
    }
}

/// A delete keeps the table valid, and afterwards no row has the id. The
/// table is one row shorter if the row was there and as long as before if not.
pub proof fn lemma_delete_removes_the_row(s: StoreModel, id: int)
    requires
        s.wf(),
    ensures
        s.deleted(id).wf(),
        s.deleted(id).last_id == s.last_id,
        !s.deleted(id).contains(id),
        s.contains(id) ==> s.deleted(id).rows.len() == s.rows.len() - 1,
        !s.contains(id) ==> s.deleted(id) == s,
{

}

/// A delete leaves every other row as it was.
pub proof fn lemma_delete_keeps_other_rows(s: StoreModel, id: int, other: int)
    requires
        s.wf(),
        other != id,
    ensures
        s.deleted(id).find(other) == s.find(other),
{
    if s.contains(id) {
        lemma_delete_removes_the_row(s, id);
        if s.contains(other) {
            let i = s.position(id);
            let j = s.position(other);
            s.deleted(id).lemma_position(
                other,
                if j < i {
                    j
                } else {
                    j - 1
                },
            );
        }
    }
}

/// Deleting an id a second time does nothing: the row is already gone and the
/// table stays as the first delete left it.
pub proof fn lemma_delete_twice_is_delete_once(s: StoreModel, id: int)
    requires
        s.wf(),
    ensures
        !s.deleted(id).contains(id),
        s.deleted(id).deleted(id) == s.deleted(id),
{
    lemma_delete_removes_the_row(s, id);
}

/// Deleting everything keeps the table valid and leaves no row, but the ids
/// that were given out stay used.
pub proof fn lemma_clear_removes_every_row(s: StoreModel, id: int)
    requires
        s.wf(),
    ensures
        s.cleared().wf(),
        s.cleared().rows.len() == 0,
        s.cleared().last_id == s.last_id,
        !s.cleared().contains(id),
{
}

/// Every change keeps the table valid and never moves the id counter back.
pub proof fn lemma_change_keeps_table_valid(s: StoreModel, change: Change)
    requires
        s.wf(),
    ensures
        s.apply(change).wf(),
        s.apply(change).last_id >= s.last_id,
{
    match change {
        Change::Create { text } => {
            if !s.exhausted() {
                lemma_create_adds_fresh_row(s, text);
            }
        },
        Change::Update { id, patch } => {
            if s.contains(id) {
                lemma_update_changes_the_row(s, id, patch);
            }
        },
        Change::Delete { id } => {
            lemma_delete_removes_the_row(s, id);
        },
        Change::DeleteAll => {},
    }
}

/// An id that was given out is never given out again: whatever changes are
/// made afterwards, deletes among them, the next row to be created gets an
/// id above it.
pub proof fn lemma_ids_are_never_reused(s: StoreModel, changes: Seq<Change>, id: int, text: Seq<char>)
    requires
        s.wf(),
        id <= s.last_id,
    ensures
        s.apply_all(changes).wf(),
        s.apply_all(changes).last_id >= s.last_id,
        s.apply_all(changes).fresh_row(text).id > id,
    decreases changes.len(),
{
    if changes.len() > 0 {
        lemma_ids_are_never_reused(s, changes.drop_last(), id, text);
        lemma_change_keeps_table_valid(s.apply_all(changes.drop_last()), changes.last());
    }
}

/// The id of a row that is in the table was given out, so it too is never
/// given out again.
pub proof fn lemma_id_of_a_row_is_never_reused(
    s: StoreModel,
    changes: Seq<Change>,
    id: int,
    text: Seq<char>,
)
    requires
        s.wf(),
        s.contains(id),
    ensures
        s.apply_all(changes).fresh_row(text).id != id,
{
    lemma_ids_are_never_reused(s, changes, id, text);
}

/// A run of creates that the id counter has room for keeps the table valid
/// and makes it longer by one row for each create.
pub proof fn lemma_creates_add_one_row_each(s: StoreModel, texts: Seq<Seq<char>>)
    requires
        s.wf(),
        s.last_id + texts.len() <= i32::MAX,
    ensures
        s.created_all(texts).wf(),
        s.created_all(texts).last_id == s.last_id + texts.len(),
        s.created_all(texts).rows.len() == s.rows.len() + texts.len(),
    decreases texts.len(),
{
    if texts.len() > 0 {
        lemma_creates_add_one_row_each(s, texts.drop_last());
        lemma_create_adds_fresh_row(s.created_all(texts.drop_last()), texts.last());
    }
}

/// After a run of creates and the delete of a row that is then there, the
/// table holds one row fewer than before the delete, and none with the
/// deleted id.
pub proof fn lemma_creates_then_delete(s: StoreModel, texts: Seq<Seq<char>>, id: int)
    requires
        s.wf(),
        s.last_id + texts.len() <= i32::MAX,
        s.created_all(texts).contains(id),
    ensures
        s.created_all(texts).deleted(id).rows.len() == s.rows.len() + texts.len() - 1,
        !s.created_all(texts).deleted(id).contains(id),
{
    lemma_creates_add_one_row_each(s, texts);
    lemma_delete_removes_the_row(s.created_all(texts), id);
}

/// A page of a valid table is in strictly ascending order of id.
pub proof fn lemma_page_is_ascending(s: StoreModel, page: nat, page_size: nat, i: int, j: int)
    requires
        s.wf(),
        page_size > 0,
        0 <= i < j < page_of(s.rows, page, page_size).len(),
    ensures
        page_of(s.rows, page, page_size)[i].id < page_of(s.rows, page, page_size)[j].id,
{
    lemma_page_bounds_are_in_range(s.rows.len(), page, page_size);
}

/// How long each page is: every page before the last is full, the last holds
/// what is left, and the pages outside that range are empty.
pub proof fn lemma_page_length<T>(rows: Seq<T>, page: nat, page_size: nat)
    requires
        page_size > 0,
    ensures
        1 <= page < total_pages(rows.len(), page_size) ==> page_of(rows, page, page_size).len()
            == page_size,
        page >= 1 && page == total_pages(rows.len(), page_size) ==> page_of(
            rows,
            page,
            page_size,
        ).len() == rows.len() - (page - 1) * page_size,
        page == 0 || page > total_pages(rows.len(), page_size) ==> page_of(
            rows,
            page,
            page_size,
        ).len() == 0,
{
    lemma_page_in_range(rows.len(), page, page_size);
    lemma_page_in_range(rows.len(), page + 1, page_size);
    lemma_page_bounds_are_in_range(rows.len(), page, page_size);
    if page > 0 {
        assert(page * page_size == (page - 1) * page_size + page_size) by (nonlinear_arith);
    }
}

/// The first `count` pages of a listing, one after the other.
pub open spec fn first_pages<T>(rows: Seq<T>, count: nat, page_size: nat) -> Seq<T>
    decreases count,
{
    if count == 0 {
        Seq::empty()
    } else {
        first_pages(rows, (count - 1) as nat, page_size) + page_of(rows, count, page_size)
    }
}

/// The first `count` pages are the first `count * page_size` rows, or all
/// rows if there are fewer.
pub proof fn lemma_first_pages_are_a_prefix<T>(rows: Seq<T>, count: nat, page_size: nat)
    requires
        page_size > 0,
    ensures
        first_pages(rows, count, page_size) == rows.subrange(
            0,
            if count * page_size <= rows.len() {
                (count * page_size) as int
            } else {
                rows.len() as int
            },
        ),
    decreases count,
{
    if count > 0 {
        let before = (count - 1) as nat;
        lemma_first_pages_are_a_prefix(rows, before, page_size);
        assert(count * page_size == before * page_size + page_size && before * page_size >= 0)
            by (nonlinear_arith)
            requires
                before == count - 1,
                page_size > 0,
        ;
        // The page starts where the pages before it end.
        let start = if before * page_size <= rows.len() {
            (before * page_size) as int
        } else {
            rows.len() as int
        };
        let end = if count * page_size <= rows.len() {
            (count * page_size) as int
        } else {
            rows.len() as int
        };
        assert(page_of(rows, count, page_size) == rows.subrange(start, end));
    } else {
        assert(first_pages(rows, count, page_size) == rows.subrange(0, 0));
    }
}

/// The pages of a listing, one after the other, are the listing: no row is
/// left out and none occurs twice.
pub proof fn lemma_pages_cover_the_listing<T>(rows: Seq<T>, page_size: nat)
    requires
        page_size > 0,
    ensures
        first_pages(rows, total_pages(rows.len(), page_size), page_size) == rows,
{
    lemma_first_pages_are_a_prefix(rows, total_pages(rows.len(), page_size), page_size);
    lemma_total_pages_is_ceiling(rows.len(), page_size);
}

} // verus!
