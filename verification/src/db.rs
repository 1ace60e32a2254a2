use vstd::prelude::*;

verus! {

/// A user's name and stored password hash.
pub struct UBaseStruct {
    pub username: String,
    pub password: String,
}

} // verus!
