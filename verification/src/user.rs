//! The handle wrapper: a record that holds one identifier, fixed when the
//! record is made, and the accessor that reads it.

use vstd::prelude::*;

verus! {

/// A record that the library owns and the host refers to by an opaque token.
///
/// The identifier is set when the record is made. The field is private and no
/// function takes the record by mutable reference, so the record keeps that
/// value for as long as it lives.
pub struct UserModel {
    user_id: i32,
}

impl View for UserModel {
    type V = i32;

    /// A handle stands for the identifier it was made with.
    closed spec fn view(&self) -> i32 {
        self.user_id
    }
}

impl UserModel {
    /// What `get_user_id` returns, for use in contracts and proofs.
    pub open spec fn spec_get_user_id(&self) -> i32 {
        self@
    }

    /// Reads the identifier of the handle.
    ///
    /// The handle is borrowed immutably and the result depends on the handle
    /// alone, so every read of one handle gives the same value.
    #[verifier::when_used_as_spec(spec_get_user_id)]
    pub fn get_user_id(&self) -> (id: i32)
        ensures
            id == self@,
    {
        self.user_id
    }
}

/// What `new_user` returns, for use in contracts and proofs.
pub closed spec fn spec_new_user(id: i32) -> UserModel {
    UserModel { user_id: id }
}

/// Makes a handle for `id`. Every 32-bit integer is accepted, the smallest,
/// zero and the largest included.
#[verifier::when_used_as_spec(spec_new_user)]
pub fn new_user(id: i32) -> (user: UserModel)
    ensures
        user == spec_new_user(id),
        user@ == id,
{
    UserModel { user_id: id }
}

/// Reading a handle that was made for `id` gives `id`.
pub proof fn lemma_get_user_id_of_new_user(id: i32)
    ensures
        new_user(id).get_user_id() == id,
{
}

/// Two reads of one handle agree.
pub proof fn lemma_reads_agree(user: UserModel, first: i32, second: i32)
    requires
        first == user.get_user_id(),
        second == user.get_user_id(),
    ensures
        first == second,
{
}

/// Handles made for different identifiers are different handles, and a read
/// of either gives its own identifier, never the other's.
pub proof fn lemma_distinct_ids_distinct_handles(a: i32, b: i32)
    requires
        a != b,
    ensures
        new_user(a) != new_user(b),
        new_user(a).get_user_id() == a,
        new_user(b).get_user_id() == b,
        new_user(a).get_user_id() != new_user(b).get_user_id(),
{
}

/// A handle holds its identifier and nothing else: making a handle for the
/// identifier that was read gives the same handle again.
pub proof fn lemma_handle_is_its_id(user: UserModel)
    ensures
        user == new_user(user.get_user_id()),
{
}

} // verus!
