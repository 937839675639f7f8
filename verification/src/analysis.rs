//! The people that projects are matched with.

use vstd::prelude::*;

verus! {

/// An intern, and the document that describes them.
pub struct Intern {
    pub name: String,
    pub email: String,
    pub document_id: String,
}

} // verus!
