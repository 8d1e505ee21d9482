use vstd::prelude::*;

verus! {

/// A moderator's key: who made it, and where submissions for it are announced.
#[derive(Debug, Clone, Default)]
pub struct ModeratorKeyData {
    pub owner_id: String,
    pub guild_id: String,
    pub channel_id: String,
    pub server_name: String,
}

} // verus!
