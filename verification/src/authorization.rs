//! Who may end a poll.

use crate::pubkey::Pubkey;
use crate::state::Poll;
use vstd::prelude::*;

verus! {

/// Whether `caller` may end a poll of `authority`: when it is the authority
/// itself, or the identity that the call names as `admin`.
///
/// The second identity comes with the call and is bound to nothing, so a caller
/// who names itself as `admin` is let through.
pub open spec fn authorized(authority: Pubkey, caller: Pubkey, admin: Pubkey) -> bool {
    authority == caller || caller == admin
}

/// Whether `caller` may resolve or cancel `poll`, with `admin` as the second
/// identity that the call names.
pub fn is_authorized(poll: &Poll, caller: &Pubkey, admin: &Pubkey) -> (r: bool)
    ensures
        r == authorized(poll.authority, *caller, *admin),
{
    poll.authority == *caller || *caller == *admin
}

} // verus!
