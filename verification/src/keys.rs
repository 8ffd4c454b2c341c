//! Key construction.
//!
//! All partition keys are the user id under the `USR#` namespace tag, and
//! all sort keys are the notification id under the `NTF#` tag. The tags
//! keep key kinds apart if the table is ever shared by other entities, and
//! the lemmas below pin down the properties that make the tags load-bearing
//! for the uniqueness invariant: distinct ids give distinct keys, and a
//! partition key can never collide with a sort key.

use vstd::prelude::*;
use vstd::string::StringExecFns;

verus! {

/// The partition key that stores notifications for `user_id`.
pub open spec fn user_partition_key_spec(user_id: Seq<char>) -> Seq<char> {
    "USR#"@ + user_id
}

/// The sort key that stores the notification `notification_id`.
pub open spec fn notification_sort_key_spec(notification_id: Seq<char>) -> Seq<char> {
    "NTF#"@ + notification_id
}

pub fn user_partition_key(user_id: &str) -> (r: String)
    ensures
        r@ == user_partition_key_spec(user_id@),
{
    String::from_str("USR#").concat(user_id)
}

pub fn notification_sort_key(notification_id: &str) -> (r: String)
    ensures
        r@ == notification_sort_key_spec(notification_id@),
{
    String::from_str("NTF#").concat(notification_id)
}

/// Namespacing loses no information: two users share a partition key only
/// if they are the same user.
pub proof fn lemma_user_partition_key_injective(a: Seq<char>, b: Seq<char>)
    requires
        user_partition_key_spec(a) == user_partition_key_spec(b),
    ensures
        a == b,
{
    let ka = user_partition_key_spec(a);
    assert(a =~= ka.skip("USR#"@.len() as int));
    assert(b =~= ka.skip("USR#"@.len() as int));
}

/// Likewise for sort keys and notification ids.
pub proof fn lemma_notification_sort_key_injective(a: Seq<char>, b: Seq<char>)
    requires
        notification_sort_key_spec(a) == notification_sort_key_spec(b),
    ensures
        a == b,
{
    let ka = notification_sort_key_spec(a);
    assert(a =~= ka.skip("NTF#"@.len() as int));
    assert(b =~= ka.skip("NTF#"@.len() as int));
}

/// The two namespaces are disjoint: no partition key equals a sort key,
/// whatever the ids are.
pub proof fn lemma_key_namespaces_disjoint(a: Seq<char>, b: Seq<char>)
    ensures
        user_partition_key_spec(a) != notification_sort_key_spec(b),
{
    reveal_strlit("USR#");
    reveal_strlit("NTF#");
    assert(user_partition_key_spec(a)[0] == 'U');
    assert(notification_sort_key_spec(b)[0] == 'N');
}

} // verus!
