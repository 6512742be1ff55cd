//! Handler-level logic of the HTTP routes: parameter defaults, the status
//! code chosen for each outcome, and the state change each route performs.
//!
//! A handler never aborts: every data-access failure is mapped to a status
//! code at this boundary.

use vstd::prelude::*;

use crate::post::Model;
use crate::store::{
    has_id, lookup, page_slice, spec_create, spec_delete, spec_num_pages, spec_update, DataError,
    PostStore,
};

verus! {

pub const STATUS_OK: u16 = 200;
pub const STATUS_CREATED: u16 = 201;
pub const STATUS_NOT_FOUND: u16 = 404;
pub const STATUS_REQUEST_TIMEOUT: u16 = 408;
pub const STATUS_INTERNAL_SERVER_ERROR: u16 = 500;

/// The page used when the query string carries none.
pub const DEFAULT_PAGE: u64 = 1;

/// The page size used when the query string carries none.
pub const DEFAULT_PAGE_SIZE: u64 = 5;

/// The decoded query parameters of the list route; both are optional.
pub struct Params {
    pub page: Option<u64>,
    pub page_size: Option<u64>,
}

/// The page the list route serves: the requested one, or the default.
pub open spec fn effective_page(params: Params) -> u64 {
    match params.page {
        Some(p) => p,
        None => DEFAULT_PAGE,
    }
}

/// The page size the list route serves: the requested one, or the default.
pub open spec fn effective_page_size(params: Params) -> u64 {
    match params.page_size {
        Some(ps) => ps,
        None => DEFAULT_PAGE_SIZE,
    }
}

/// The status a failed data-access call is translated to: not-found maps
/// to 404, any other failure to 500.
pub fn status_for_data_error(e: &DataError) -> (s: u16)
    ensures
        e is NotFound ==> s == STATUS_NOT_FOUND,
        e is Other ==> s == STATUS_INTERNAL_SERVER_ERROR,
{
    match e {
        DataError::NotFound => STATUS_NOT_FOUND,
        DataError::Other => STATUS_INTERNAL_SERVER_ERROR,
    }
}

/// The status chosen for an error the routing pipeline itself surfaces:
/// a request that outlived the global timeout gets 408, anything else 500.
pub fn status_for_unhandled_error(timed_out: bool) -> (s: u16)
    ensures
        timed_out ==> s == STATUS_REQUEST_TIMEOUT,
        !timed_out ==> s == STATUS_INTERNAL_SERVER_ERROR,
{
    if timed_out {
        STATUS_REQUEST_TIMEOUT
    } else {
        STATUS_INTERNAL_SERVER_ERROR
    }
}

/// The list route: applies the defaults, then serves the requested page
/// together with the total page count.
pub fn list_posts(store: &PostStore, params: Params) -> (r: (Vec<Model>, u64))
    requires
        store.wf(),
        params.page matches Some(p) ==> p >= 1,
        params.page_size matches Some(ps) ==> ps >= 1,
    ensures
        r.0@ == page_slice(
            store@,
            effective_page(params) as int,
            effective_page_size(params) as int,
        ),
        r.1 == spec_num_pages(store@.len() as int, effective_page_size(params) as int),
{
    let page = match params.page {
        Some(p) => p,
        None => DEFAULT_PAGE,
    };
    let page_size = match params.page_size {
        Some(ps) => ps,
        None => DEFAULT_PAGE_SIZE,
    };
    store.find_posts_in_page(page, page_size)
}

/// The fetch route: 200 with the record when the id exists, else 404 with
/// no body.
pub fn get_post(store: &PostStore, id: i32) -> (r: (u16, Option<Model>))
    requires
        store.wf(),
    ensures
        match lookup(store@, id) {
            Some(p) => r == (STATUS_OK, Some(p)),
            None => r == (STATUS_NOT_FOUND, None::<Model>),
        },
{
    match store.find_post_by_id(id) {
        Ok(p) => (STATUS_OK, Some(p)),
        Err(e) => (status_for_data_error(&e), None),
    }
}

/// The create route: inserts the decoded record and responds 201 Created.
pub fn create_post(store: &mut PostStore, body: Model) -> (r: u16)
    requires
        old(store).wf(),
        old(store).can_assign_id(),
    ensures
        final(store).wf(),
        final(store)@ == spec_create(old(store)@, old(store).next_id(), body),
        final(store).next_id() == old(store).next_id() + 1,
        r == STATUS_CREATED,
{
    let _created = store.create_post(body);
    STATUS_CREATED
}

/// The update route: overwrites the record's title and text and responds
/// 200, or 404 when the id is absent.
pub fn update_post(store: &mut PostStore, id: i32, body: Model) -> (r: u16)
    requires
        old(store).wf(),
    ensures
        final(store).wf(),
        final(store).next_id() == old(store).next_id(),
        has_id(old(store)@, id) ==> r == STATUS_OK && final(store)@ == spec_update(
            old(store)@,
            id,
            body,
        ),
        !has_id(old(store)@, id) ==> r == STATUS_NOT_FOUND && final(store)@ == old(store)@,
{
    match store.update_post_by_id(id, body) {
        Ok(_p) => STATUS_OK,
        Err(e) => status_for_data_error(&e),
    }
}

/// The delete route: removes the record if present and responds 200 with
/// no body either way.
pub fn delete_post(store: &mut PostStore, id: i32) -> (r: u16)
    requires
        old(store).wf(),
    ensures
        final(store).wf(),
        final(store).next_id() == old(store).next_id(),
        final(store)@ == spec_delete(old(store)@, id),
        lookup(final(store)@, id) is None,
        r == STATUS_OK,
{
    let _rows = store.delete_post(id);
    STATUS_OK
}

/// The greeting route: a static body, no data access.
pub fn hello_world() -> (r: &'static str)
    ensures
        r@ == "Hello, World!"@,
{
    "Hello, World!"
}

} // verus!
