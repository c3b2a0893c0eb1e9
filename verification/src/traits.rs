//! Records that a search field can select.
use vstd::prelude::*;

use crate::records::SearchField;

verus! {

/// A record that can be looked up by a [`SearchField`].
pub trait Searchable {
    /// Whether this record is the one that `search_field` names.
    spec fn matches_spec(&self, search_field: SearchField) -> bool;

    fn matches(&self, search_field: &SearchField) -> (r: bool)
        ensures
            r == self.matches_spec(*search_field),
    ;
}

}
