//! The data access layer: an in-memory repository over the posts table.
//!
//! The repository keeps the rows ordered by ascending primary key, the order
//! in which the list operation pages through them, and assigns primary keys
//! from a monotone counter, as a database autoincrement column would.

use vstd::prelude::*;

use crate::post::Model;

verus! {

/// The typed outcome of a failed data-access operation: the row was not
/// found, or the underlying store failed for another reason.
#[derive(Clone, Copy, Debug, PartialEq, Eq, Structural)]
pub enum DataError {
    NotFound,
    Other,
}

/// The rows are strictly ordered by ascending id; in particular no two rows
/// share an id.
pub open spec fn sorted_by_id(s: Seq<Model>) -> bool {
    forall|i: int, j: int| 0 <= i < j < s.len() ==> s[i].id < s[j].id
}

/// Some row of `s` carries the id.
pub open spec fn has_id(s: Seq<Model>, id: i32) -> bool {
    exists|i: int| 0 <= i < s.len() && s[i].id == id
}

/// The index of the row carrying the id; meaningful only when `has_id` holds
/// (and then unique, once the rows are sorted).
pub open spec fn idx_of(s: Seq<Model>, id: i32) -> int {
    choose|i: int| 0 <= i < s.len() && s[i].id == id
}

/// The row carrying the id, if any.
pub open spec fn lookup(s: Seq<Model>, id: i32) -> Option<Model> {
    if has_id(s, id) {
        Some(s[idx_of(s, id)])
    } else {
        None
    }
}

/// The row a successful insert adds to the table: the client-supplied id is
/// overwritten by the store's counter, title and text are kept.
pub open spec fn stored_row(next_id: i32, p: Model) -> Model {
    Model { id: next_id, title: p.title, text: p.text }
}

/// The table after inserting `p` under the id `next_id`.
pub open spec fn spec_create(s: Seq<Model>, next_id: i32, p: Model) -> Seq<Model> {
    s.push(stored_row(next_id, p))
}

/// The table after updating the row carrying `id` in place: its title and
/// text are overwritten, its id and every other row are unchanged.
pub open spec fn spec_update(s: Seq<Model>, id: i32, p: Model) -> Seq<Model> {
    s.map(|i: int, m: Model| if m.id == id { stored_row(id, p) } else { m })
}

/// The table after deleting the row carrying `id`: unchanged when no row
/// does.
pub open spec fn spec_delete(s: Seq<Model>, id: i32) -> Seq<Model> {
    if has_id(s, id) {
        s.remove(idx_of(s, id))
    } else {
        s
    }
}

/// The number of pages the table fills at `page_size` rows per page:
/// the row count divided by the page size, rounded up.
pub open spec fn spec_num_pages(total: int, page_size: int) -> int {
    (total + page_size - 1) / page_size
}

/// The rows of the 1-indexed page: the table's slice starting at
/// `(page - 1) * page_size`, at most `page_size` rows long. A page past the
/// end of the table is empty.
pub open spec fn page_slice(s: Seq<Model>, page: int, page_size: int) -> Seq<Model> {
    let start = (page - 1) * page_size;
    if start >= s.len() {
        Seq::empty()
    } else if start + page_size >= s.len() {
        s.subrange(start, s.len() as int)
    } else {
        s.subrange(start, start + page_size)
    }
}

/// In a sorted table the row at any index is the one `lookup` returns for
/// its id.
pub proof fn lemma_unique_index(s: Seq<Model>, i: int)
    requires
        sorted_by_id(s),
        0 <= i < s.len(),
    ensures
        idx_of(s, s[i].id) == i,
        lookup(s, s[i].id) == Some(s[i]),
{
    let id = s[i].id;
    assert(has_id(s, id));
    let j = idx_of(s, id);
    assert(0 <= j < s.len() && s[j].id == id);
    if i < j {
        assert(s[i].id < s[j].id);
    } else if j < i {
        assert(s[j].id < s[i].id);
    }
}

/// The in-memory posts table.
pub struct PostStore {
    posts: Vec<Model>,
    next_id: i32,
}

impl View for PostStore {
    type V = Seq<Model>;

    closed spec fn view(&self) -> Seq<Model> {
        self.posts@
    }
}

impl PostStore {
    /// The id the store will assign to the next inserted row.
    pub closed spec fn next_id(&self) -> i32 {
        self.next_id
    }

    /// Well-formedness: rows sorted by ascending id, every id below the
    /// autoincrement counter, and the counter at least 1.
    pub open spec fn wf(&self) -> bool {
        &&& sorted_by_id(self@)
        &&& (forall|i: int| 0 <= i < self@.len() ==> self@[i].id < self.next_id())
        &&& self.next_id() >= 1
    }

    /// An id can still be assigned: the autoincrement counter has not
    /// reached its machine limit.
    pub open spec fn can_assign_id(&self) -> bool {
        self.next_id() < i32::MAX
    }

    /// Whether an insert may be attempted: callers outside verified code
    /// test this before `create_post`.
    pub fn can_create(&self) -> (b: bool)
        ensures
            b == self.can_assign_id(),
    {
        self.next_id < i32::MAX
    }

    /// An empty table; the first inserted row receives id 1.
    pub fn new() -> (s: Self)
        ensures
            s@ == Seq::<Model>::empty(),
            s.wf(),
            s.next_id() == 1,
    {
        PostStore { posts: Vec::new(), next_id: 1 }
    }

    /// The index of the row carrying `id`, if any.
    fn index_of(&self, id: i32) -> (r: Option<usize>)
        ensures
            match r {
                Some(i) => i < self@.len() && self@[i as int].id == id,
                None => !has_id(self@, id),
            },
    {
        let n = self.posts.len();
        for i in 0..n
            invariant
                n == self@.len(),
                forall|k: int| 0 <= k < i ==> self@[k].id != id,
        {
            if self.posts[i].id == id {
                return Some(i);
            }
        }
        None
    }

    /// Returns the single row whose primary key matches, and fails with
    /// `NotFound` when no row does.
    pub fn find_post_by_id(&self, id: i32) -> (r: Result<Model, DataError>)
        requires
            self.wf(),
        ensures
            match r {
                Ok(p) => lookup(self@, id) == Some(p),
                Err(e) => e == DataError::NotFound && lookup(self@, id) is None,
            },
    {
        match self.index_of(id) {
            Some(i) => {
                let p = self.posts[i].clone();
                proof {
                    lemma_unique_index(self@, i as int);
                }
                Ok(p)
            },
            None => Err(DataError::NotFound),
        }
    }

    /// Returns the rows of the 1-indexed page, ordered by ascending id and
    /// at most `page_size` of them, together with the total page count,
    /// `ceil(total_rows / page_size)`. A page past the end of the table
    /// yields an empty list, not an error.
    pub fn find_posts_in_page(&self, page: u64, page_size: u64) -> (r: (Vec<Model>, u64))
        requires
            self.wf(),
            page >= 1,
            page_size >= 1,
        ensures
            r.0@ == page_slice(self@, page as int, page_size as int),
            r.1 == spec_num_pages(self@.len() as int, page_size as int),
            r.0@.len() <= page_size,
            sorted_by_id(r.0@),
    {
        let total: u64 = self.posts.len() as u64;
        let num_pages_wide: u128 = (total as u128 + page_size as u128 - 1) / (page_size as u128);
        proof {
            if total == 0 {
                vstd::arithmetic::div_mod::lemma_basic_div(
                    page_size as int - 1,
                    page_size as int,
                );
            } else {
                assert(total as int + page_size as int - 1 <= total as int * page_size as int)
                    by (nonlinear_arith)
                    requires
                        total >= 1,
                        page_size >= 1,
                ;
                vstd::arithmetic::div_mod::lemma_div_is_ordered(
                    total as int + page_size as int - 1,
                    total as int * page_size as int,
                    page_size as int,
                );
                vstd::arithmetic::div_mod::lemma_div_by_multiple(total as int, page_size as int);
            }
        }
        let num_pages: u64 = num_pages_wide as u64;
        let mut out: Vec<Model> = Vec::new();
        let len: usize = self.posts.len();
        proof {
            assert((page - 1) as int * page_size as int <= u64::MAX as int * u64::MAX as int)
                by (nonlinear_arith)
                requires
                    1 <= page <= u64::MAX,
                    page_size <= u64::MAX,
            ;
        }
        let start_wide: u128 = (page as u128 - 1) * (page_size as u128);
        if start_wide < len as u128 {
            let start: usize = start_wide as usize;
            let remaining: usize = len - start;
            let count: usize = if (page_size as u128) < (remaining as u128) {
                page_size as usize
            } else {
                remaining
            };
            let end: usize = start + count;
            for i in start..end
                invariant
                    start <= i <= end <= len,
                    len == self@.len(),
                    out@ == self@.subrange(start as int, i as int),
            {
                out.push(self.posts[i].clone());
                proof {
                    assert(out@ =~= self@.subrange(start as int, i as int + 1));
                }
            }
            proof {
                assert(out@ == page_slice(self@, page as int, page_size as int));
                assert forall|a: int, b: int| 0 <= a < b < out@.len() implies out@[a].id
                    < out@[b].id by {
                    assert(out@[a] == self@[start as int + a]);
                    assert(out@[b] == self@[start as int + b]);
                }
            }
        } else {
            proof {
                assert(out@ =~= page_slice(self@, page as int, page_size as int));
            }
        }
        (out, num_pages)
    }

    /// Inserts a new row; the store assigns the primary key and returns the
    /// persisted record.
    pub fn create_post(&mut self, post: Model) -> (r: Model)
        requires
            old(self).wf(),
            old(self).can_assign_id(),
        ensures
            final(self).wf(),
            final(self).next_id() == old(self).next_id() + 1,
            final(self)@ == spec_create(old(self)@, old(self).next_id(), post),
            r == stored_row(old(self).next_id(), post),
            lookup(final(self)@, r.id) == Some(r),
    {
        let id = self.next_id;
        let stored = Model { id, title: post.title, text: post.text };
        let r = stored.clone();
        self.posts.push(stored);
        self.next_id = self.next_id + 1;
        proof {
            assert forall|i: int, j: int| 0 <= i < j < self@.len() implies self@[i].id
                < self@[j].id by {
                if j < self@.len() - 1 {
                    assert(old(self).wf());
                }
            }
            lemma_unique_index(self@, self@.len() - 1);
        }
        r
    }

    /// Overwrites title and text of the row whose primary key matches and
    /// returns the updated record; fails with `NotFound` when no row
    /// matches, leaving the table unchanged.
    pub fn update_post_by_id(&mut self, id: i32, post: Model) -> (r: Result<Model, DataError>)
        requires
            old(self).wf(),
        ensures
            final(self).wf(),
            final(self).next_id() == old(self).next_id(),
            match r {
                Ok(p) => {
                    &&& has_id(old(self)@, id)
                    &&& p == stored_row(id, post)
                    &&& final(self)@ == spec_update(old(self)@, id, post)
                    &&& lookup(final(self)@, id) == Some(p)
                },
                Err(e) => {
                    &&& e == DataError::NotFound
                    &&& !has_id(old(self)@, id)
                    &&& final(self)@ == old(self)@
                },
            },
    {
        match self.index_of(id) {
            Some(i) => {
                let updated = Model { id, title: post.title, text: post.text };
                let p = updated.clone();
                self.posts[i] = updated;
                proof {
                    let s0 = old(self)@;
                    let s1 = self@;
                    assert forall|k: int| 0 <= k < s0.len() implies #[trigger] s1[k]
                        == (if s0[k].id == id { stored_row(id, post) } else { s0[k] }) by {
                        lemma_unique_index(s0, i as int);
                        if k != i {
                            lemma_unique_index(s0, k);
                        }
                    }
                    assert(s1 =~= spec_update(s0, id, post));
                    assert(sorted_by_id(s1));
                    lemma_unique_index(s1, i as int);
                }
                Ok(p)
            },
            None => Err(DataError::NotFound),
        }
    }

    /// Deletes the row whose primary key matches, if any, and returns the
    /// number of rows deleted: one when a row matched, zero otherwise —
    /// a missing row is not an error.
    pub fn delete_post(&mut self, id: i32) -> (r: u64)
        requires
            old(self).wf(),
        ensures
            final(self).wf(),
            final(self).next_id() == old(self).next_id(),
            final(self)@ == spec_delete(old(self)@, id),
            r == (if has_id(old(self)@, id) { 1u64 } else { 0u64 }),
            lookup(final(self)@, id) is None,
    {
        match self.index_of(id) {
            Some(i) => {
                self.posts.remove(i);
                proof {
                    let s0 = old(self)@;
                    let s1 = self@;
                    lemma_unique_index(s0, i as int);
                    assert(s1 =~= s0.remove(i as int));
                    assert forall|k: int| 0 <= k < s1.len() implies #[trigger] s1[k].id != id by {
                        if k < i {
                            lemma_unique_index(s0, k);
                        } else {
                            lemma_unique_index(s0, k + 1);
                        }
                    }
                    assert(!has_id(s1, id));
                    assert(sorted_by_id(s1));
                }
                1
            },
            None => {
                proof {
                    assert(self@ =~= spec_delete(old(self)@, id));
                }
                0
            },
        }
    }
}

} // verus!
