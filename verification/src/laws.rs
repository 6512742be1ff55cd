//! Round-trip laws of the data access layer, stated over the table model
//! that the operations' contracts use.

use vstd::prelude::*;

use crate::post::Model;
use crate::store::{
    has_id, idx_of, lookup, sorted_by_id, spec_create, spec_delete, spec_num_pages, spec_update,
    stored_row, lemma_unique_index,
};

verus! {

/// Law: the reported page count is the ceiling of the row count over the
/// page size — the pages cover every row, the last page is not empty, and
/// an empty table has no pages.
pub proof fn lemma_num_pages_is_ceiling(total: int, page_size: int)
    requires
        total >= 0,
        page_size >= 1,
    ensures
        spec_num_pages(total, page_size) * page_size >= total,
        total > 0 ==> (spec_num_pages(total, page_size) - 1) * page_size < total,
        total == 0 ==> spec_num_pages(total, page_size) == 0,
{
    let q = spec_num_pages(total, page_size);
    vstd::arithmetic::div_mod::lemma_fundamental_div_mod(total + page_size - 1, page_size);
    assert(total + page_size - 1 == page_size * q + ((total + page_size - 1) % page_size));
    assert((q - 1) * page_size == page_size * q - page_size) by (nonlinear_arith);
    assert(q * page_size == page_size * q) by (nonlinear_arith);
    if total == 0 {
        vstd::arithmetic::div_mod::lemma_basic_div(page_size - 1, page_size);
    }
}

/// Law: creating a post and then fetching it by the assigned id yields a
/// record with the same title and text as the one supplied.
pub proof fn lemma_create_then_find(s: Seq<Model>, next_id: i32, p: Model)
    requires
        sorted_by_id(s),
        forall|i: int| 0 <= i < s.len() ==> s[i].id < next_id,
    ensures
        ({
            let created = stored_row(next_id, p);
            &&& lookup(spec_create(s, next_id, p), created.id) == Some(created)
            &&& created.title == p.title
            &&& created.text == p.text
        }),
{
    let s2 = spec_create(s, next_id, p);
    assert forall|i: int, j: int| 0 <= i < j < s2.len() implies s2[i].id < s2[j].id by {
        if j < s2.len() - 1 {
            assert(s[i].id < s[j].id);
        }
    }
    lemma_unique_index(s2, s2.len() - 1);
}

/// Law: updating a post by id and then fetching that id yields the updated
/// title and text under the unchanged id; when the id is absent the table
/// is untouched.
pub proof fn lemma_update_then_find(s: Seq<Model>, id: i32, p: Model)
    requires
        sorted_by_id(s),
    ensures
        has_id(s, id) ==> lookup(spec_update(s, id, p), id) == Some(stored_row(id, p)),
        !has_id(s, id) ==> spec_update(s, id, p) == s,
{
    let s2 = spec_update(s, id, p);
    if has_id(s, id) {
        let i = idx_of(s, id);
        assert(0 <= i < s.len() && s[i].id == id);
        assert forall|k: int| 0 <= k < s2.len() implies #[trigger] s2[k].id == s[k].id by {}
        assert(sorted_by_id(s2));
        assert(s2[i] == stored_row(id, p));
        lemma_unique_index(s2, i);
    } else {
        assert forall|k: int| 0 <= k < s2.len() implies #[trigger] s2[k] == s[k] by {
            assert(s[k].id != id);
        }
        assert(s2 =~= s);
    }
}

/// Law: deleting a post by id and then fetching that id finds nothing,
/// whether or not the id was present.
pub proof fn lemma_delete_then_find(s: Seq<Model>, id: i32)
    requires
        sorted_by_id(s),
    ensures
        lookup(spec_delete(s, id), id) is None,
{
    if has_id(s, id) {
        let i = idx_of(s, id);
        assert(0 <= i < s.len() && s[i].id == id);
        let s2 = spec_delete(s, id);
        assert(s2 == s.remove(i));
        s.remove_ensures(i);
        assert forall|k: int| 0 <= k < s2.len() implies #[trigger] s2[k].id != id by {
            if k < i {
                assert(s2[k] == s[k]);
                lemma_unique_index(s, k);
            } else {
                assert(s2[k] == s[k + 1]);
                lemma_unique_index(s, k + 1);
            }
        }
        assert(!has_id(s2, id));
    }
}

} // verus!
