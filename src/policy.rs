use vstd::prelude::*;
use crate::entity::{Post, PostView};
use crate::value_object::UserId;

verus! {

/// Only the owner of a post may change or delete it.
pub open spec fn may_mutate(post: PostView, acting_user_id: int) -> bool {
    post.user_id == acting_user_id
}

/// Whether the user `acting_user_id` may change or delete `post`.
pub fn can_mutate(post: &Post, acting_user_id: UserId) -> (r: bool)
    ensures
        r == may_mutate(post@, acting_user_id as int),
{
    post.user_id == acting_user_id
}

} // verus!
