//! The "post" entity: the sole record of the service.

use vstd::prelude::*;

verus! {

/// A post record as it lives in the "posts" table: an integer primary key
/// assigned by the store, a required title and an optional body text.
#[derive(Debug, PartialEq, Eq)]
pub struct Model {
    pub id: i32,
    pub title: String,
    pub text: Option<String>,
}

impl Clone for Model {
    fn clone(&self) -> (res: Self)
        ensures
            res == *self,
    {
        Model {
            id: self.id,
            title: self.title.clone(),
            text: match &self.text {
                Some(t) => Some(t.clone()),
                None => None,
            },
        }
    }
}

} // verus!
