//! The todo table: its mathematical model and the executable table that
//! implements it.
//!
//! The table keeps its rows in ascending order of id and hands out ids from a
//! counter that only ever grows, so an id is never given out twice, not even
//! after its row is gone.

use vstd::prelude::*;
use crate::model::{models, PatchModel, Todo, TodoModel};

verus! {

/// One change to the table, as the write layer makes it.
pub enum Change {
    /// A create with this text.
    Create { text: Seq<char> },
    /// An update of the row with this id.
    Update { id: int, patch: PatchModel },
    /// A delete of the row with this id.
    Delete { id: int },
    /// A delete of every row.
    DeleteAll,
}

/// The table as contracts see it: the rows in ascending order of id, and the
/// highest id that was ever given out.
pub struct StoreModel {
    pub rows: Seq<TodoModel>,
    pub last_id: int,
}

impl StoreModel {
    /// The table before anything was created.
    pub open spec fn empty() -> StoreModel {
        StoreModel { rows: Seq::empty(), last_id: 0 }
    }

    /// Ids are positive, none is above the counter, and the rows stand in
    /// strictly ascending order of id (so no id occurs twice).
    pub open spec fn wf(self) -> bool {
        &&& 0 <= self.last_id <= i32::MAX
        &&& forall|i: int| 0 <= i < self.rows.len() ==> 1 <= (#[trigger] self.rows[i]).id <= self.last_id
        &&& forall|i: int, j: int|
            0 <= i < j < self.rows.len() ==> (#[trigger] self.rows[i]).id < (#[trigger] self.rows[j]).id
    }

    /// Some row has this id.
    pub open spec fn contains(self, id: int) -> bool {
        exists|i: int| 0 <= i < self.rows.len() && (#[trigger] self.rows[i]).id == id
    }

    /// Where the row with this id stands, if there is one.
    pub open spec fn position(self, id: int) -> int {
        choose|i: int| 0 <= i < self.rows.len() && (#[trigger] self.rows[i]).id == id
    }

    /// The row with this id, if there is one.
    pub open spec fn row(self, id: int) -> TodoModel {
        self.rows[self.position(id)]
    }

    /// The result of a lookup by id.
    pub open spec fn find(self, id: int) -> Option<TodoModel> {
        if self.contains(id) {
            Some(self.row(id))
        } else {
            None
        }
    }

    /// The counter has reached the largest id there is: nothing more can be
    /// created.
    pub open spec fn exhausted(self) -> bool {
        self.last_id >= i32::MAX
    }

    /// The row that the next create makes: the next id, the given text, not
    /// completed.
    pub open spec fn fresh_row(self, text: Seq<char>) -> TodoModel {
        TodoModel { id: self.last_id + 1, text, completed: false }
    }

    /// The table after a create.
    pub open spec fn created(self, text: Seq<char>) -> StoreModel {
        StoreModel { rows: self.rows.push(self.fresh_row(text)), last_id: self.last_id + 1 }
    }

    /// The table after an update of the row with this id; unchanged if there
    /// is no such row.
    pub open spec fn updated(self, id: int, patch: PatchModel) -> StoreModel {
        if self.contains(id) {
            StoreModel {
                rows: self.rows.update(self.position(id), self.row(id).patched(patch)),
                last_id: self.last_id,
            }
        } else {
            self
        }
    }

    /// The table after a delete of the row with this id; unchanged if there
    /// is no such row.
    pub open spec fn deleted(self, id: int) -> StoreModel {
        if self.contains(id) {
            StoreModel { rows: self.rows.remove(self.position(id)), last_id: self.last_id }
        } else {
            self
        }
    }

    /// The table after all rows are deleted. The counter stays.
    pub open spec fn cleared(self) -> StoreModel {
        StoreModel { rows: Seq::empty(), last_id: self.last_id }
    }

    /// The table after one change. A create on a table whose ids have run
    /// out fails and changes nothing.
    pub open spec fn apply(self, change: Change) -> StoreModel {
        match change {
            Change::Create { text } => if self.exhausted() {
                self
            } else {
                self.created(text)
            },
            Change::Update { id, patch } => self.updated(id, patch),
            Change::Delete { id } => self.deleted(id),
            Change::DeleteAll => self.cleared(),
        }
    }

    /// The table after a run of changes, first to last.
    pub open spec fn apply_all(self, changes: Seq<Change>) -> StoreModel
        decreases changes.len(),
    {
        if changes.len() == 0 {
            self
        } else {
            self.apply_all(changes.drop_last()).apply(changes.last())
        }
    }

    /// The table after one create for each text, first to last.
    pub open spec fn created_all(self, texts: Seq<Seq<char>>) -> StoreModel
        decreases texts.len(),
    {
        if texts.len() == 0 {
            self
        } else {
            self.created_all(texts.drop_last()).created(texts.last())
        }
    }

    /// In a valid table a row's id fixes its position.
    pub proof fn lemma_position(self, id: int, i: int)
        requires
            self.wf(),
            0 <= i < self.rows.len(),
            self.rows[i].id == id,
        ensures
            self.contains(id),
            self.position(id) == i,
            self.row(id) == self.rows[i],
    {
        // `position` picks a row with this id. Were it another row than the
        // one at `i`, two rows in ascending order would have the same id.
        let j = self.position(id);
        assert(self.rows[j].id == id);
    }
}

/// The todo table. Rows are added, changed and removed through
/// [`crate::mutation::Mutation`] and read through [`crate::query::Query`].
///
/// The table is valid at every step: where the rows are changed, they are
/// first swapped out, changed on the side, and swapped back in.
pub struct TodoStore {
    rows: Vec<Todo>,
    last_id: i32,
}

impl View for TodoStore {
    type V = StoreModel;

    // Every table that exists meets the invariant, so this is the stored
    // rows and counter. The other branch only makes the view valid for every
    // value that a proof may speak of.
    closed spec fn view(&self) -> StoreModel {
        if self.inv() {
            StoreModel { rows: models(self.rows@), last_id: self.last_id as int }
        } else {
            StoreModel::empty()
        }
    }
}

impl TodoStore {
    #[verifier::type_invariant]
    spec fn inv(self) -> bool {
        &&& 0 <= self.last_id
        &&& forall|i: int| 0 <= i < self.rows.len() ==> 1 <= (#[trigger] self.rows[i]).id <= self.last_id
        &&& forall|i: int, j: int|
            0 <= i < j < self.rows.len() ==> (#[trigger] self.rows[i]).id < (#[trigger] self.rows[j]).id
    }

    /// The invariant on the rows as they are stored is the validity of the
    /// model.
    proof fn lemma_inv_wf(self)
        requires
            self.inv(),
        ensures
            self@.wf(),
            self@.rows.len() == self.rows.len(),
            forall|i: int| 0 <= i < self.rows.len() ==> (#[trigger] self@.rows[i]) == self.rows[i]@,
    {
    }

    /// Every table is valid.
    pub proof fn lemma_valid(self)
        ensures
            self@.wf(),
    {
        if self.inv() {
            self.lemma_inv_wf();
        }
    }

    /// An empty table whose first row will get id 1.
    pub fn new() -> (store: Self)
        ensures
            store@ == StoreModel::empty(),
            store@.wf(),
    {
        let store = TodoStore { rows: Vec::new(), last_id: 0 };
        assert(store@.rows =~= Seq::empty());
        store
    }

    /// An empty table that counts its ids on from `last_id`: the first row
    /// will get the id after it. For a table that takes over from another
    /// one, whose ids must stay used. `None` if `last_id` is negative.
    pub fn starting_after(last_id: i32) -> (made: Option<Self>)
        ensures
            (match made {
                Some(store) => last_id >= 0 && store@ == (StoreModel {
                    rows: Seq::empty(),
                    last_id: last_id as int,
                }) && store@.wf(),
                None => last_id < 0,
            }),
    {
        if last_id < 0 {
            return None;
        }
        let store = TodoStore { rows: Vec::new(), last_id };
        assert(store@.rows =~= Seq::empty());
        Some(store)
    }

    /// The number of rows.
    pub fn len(&self) -> (count: usize)
        ensures
            count == self@.rows.len(),
            self@.wf(),
    {
        proof {
            use_type_invariant(self);
            self.lemma_inv_wf();
        }
        self.rows.len()
    }

    /// The highest id that was ever given out; 0 if none was.
    pub fn last_id(&self) -> (id: i32)
        ensures
            id == self@.last_id,
            self@.wf(),
    {
        proof {
            use_type_invariant(self);
            self.lemma_inv_wf();
        }
        self.last_id
    }

    /// Looks for the row with this id by bisection.
    pub(crate) fn locate(&self, id: i32) -> (found: Option<usize>)
        ensures
            self@.wf(),
            (match found {
                Some(i) => i < self@.rows.len() && self@.contains(id as int) && self@.position(
                    id as int,
                ) == i,
                None => !self@.contains(id as int),
            }),
    {
        proof {
            use_type_invariant(self);
            self.lemma_inv_wf();
        }
        let ghost model = self@;
        let mut low: usize = 0;
        let mut high: usize = self.rows.len();
        while low < high
            invariant
                model == self@,
                model.wf(),
                low <= high <= self.rows.len(),
                self.rows.len() == model.rows.len(),
                forall|k: int| 0 <= k < low ==> (#[trigger] model.rows[k]).id < id,
                forall|k: int| high <= k < model.rows.len() ==> (#[trigger] model.rows[k]).id > id,
            decreases high - low,
        {
            let mid = low + (high - low) / 2;
            let here = self.rows[mid].id;
            if here == id {
                proof {
                    model.lemma_position(id as int, mid as int);
                }
                return Some(mid);
            } else if here < id {
                low = mid + 1;
            } else {
                high = mid;
            }
        }
        None
    }

    /// A copy of the row at a position.
    pub(crate) fn row_at(&self, i: usize) -> (row: Todo)
        requires
            i < self@.rows.len(),
        ensures
            row@ == self@.rows[i as int],
    {
        self.rows[i].clone()
    }

    /// Copies of the rows from one position up to, not including, another.
    pub(crate) fn rows_between(&self, start: usize, end: usize) -> (rows: Vec<Todo>)
        requires
            start <= end <= self@.rows.len(),
        ensures
            models(rows@) == self@.rows.subrange(start as int, end as int),
            rows.len() == end - start,
    {
        let mut rows: Vec<Todo> = Vec::new();
        let mut i = start;
        while i < end
            invariant
                start <= i <= end <= self.rows.len(),
                rows.len() == i - start,
                forall|k: int| 0 <= k < rows.len() ==> (#[trigger] rows[k])@ == self.rows[start + k]@,
            decreases end - i,
        {
            rows.push(self.rows[i].clone());
            i += 1;
        }
        rows
    }

    /// Appends the row that the next create makes and moves the counter on.
    pub(crate) fn append(&mut self, text: String) -> (row: Todo)
        requires
            !old(self)@.exhausted(),
        ensures
            final(self)@ == old(self)@.created(text@),
            final(self)@.wf(),
            row@ == old(self)@.fresh_row(text@),
    {
        proof {
            use_type_invariant(&*self);
            self.lemma_inv_wf();
        }
        let id = self.last_id + 1;
        let row = Todo { id, text, completed: false };
        let copy = row.clone();
        self.last_id = id;
        let mut rows: Vec<Todo> = Vec::new();
        std::mem::swap(&mut rows, &mut self.rows);
        rows.push(row);
        std::mem::swap(&mut rows, &mut self.rows);
        assert(self@.rows =~= old(self)@.created(text@).rows);
        copy
    }

    /// Puts `row` in the place of the row at a position. The id stays.
    pub(crate) fn replace_at(&mut self, i: usize, row: Todo)
        requires
            i < old(self)@.rows.len(),
            row@.id == old(self)@.rows[i as int].id,
        ensures
            final(self)@.rows == old(self)@.rows.update(i as int, row@),
            final(self)@.last_id == old(self)@.last_id,
            final(self)@.wf(),
    {
        proof {
            use_type_invariant(&*self);
            self.lemma_inv_wf();
        }
        let mut rows: Vec<Todo> = Vec::new();
        std::mem::swap(&mut rows, &mut self.rows);
        rows.set(i, row);
        std::mem::swap(&mut rows, &mut self.rows);
    }

    /// Takes the row at a position out of the table.
    pub(crate) fn remove_at(&mut self, i: usize)
        requires
            i < old(self)@.rows.len(),
        ensures
            final(self)@.rows == old(self)@.rows.remove(i as int),
            final(self)@.last_id == old(self)@.last_id,
            final(self)@.wf(),
    {
        proof {
            use_type_invariant(&*self);
            self.lemma_inv_wf();
        }
        let mut rows: Vec<Todo> = Vec::new();
        std::mem::swap(&mut rows, &mut self.rows);
        rows.remove(i);
        std::mem::swap(&mut rows, &mut self.rows);
    }

    /// Takes every row out of the table.
    pub(crate) fn clear(&mut self)
        ensures
            final(self)@ == old(self)@.cleared(),
            final(self)@.wf(),
    {
        proof {
            use_type_invariant(&*self);
            self.lemma_inv_wf();
        }
        self.rows = Vec::new();
        assert(self@.rows =~= Seq::empty());
    }
}

} // verus!
