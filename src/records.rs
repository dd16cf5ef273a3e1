use vstd::prelude::*;
use crate::key::{Pubkey, bytes_lt};
use crate::addressing::sha256_digest;

verus! {

/// Entries that a profile's content list or social-link list can hold.
pub const MAX_LIST_ENTRIES: usize = 20;

/// Entries that a profile's notification log can hold: its 1008 reserved
/// bytes take the owner (32), two counters (8 each), a 4-byte length prefix
/// and 48 bytes per entry.
pub const MAX_NOTIFICATIONS: usize = 19;

/// The bytes that each text, and each list, is preceded by in storage: its length.
pub const LENGTH_PREFIX_BYTES: usize = 4;

/// Bytes reserved for a profile's picture url, content list and social-link
/// list, length prefixes included.
pub const PROFILE_BODY_SPACE: usize = 2048;

/// Bytes that a project's url and description can take together: 2048
/// reserved bytes less the two texts' length prefixes.
pub const MAX_PROJECT_TEXT_BYTES: usize = 2040;

/// Bytes that a message's text can take: 2048 reserved bytes less the two
/// 32-byte keys and the text's length prefix.
pub const MAX_MESSAGE_TEXT_BYTES: usize = 1980;

/// The process-wide singleton: initialization flags and the issuance counter.
#[derive(Clone, Copy, Debug, PartialEq, Eq, Structural)]
pub struct ProgramHeader {
    pub is_initialized: bool,
    pub is_authority: bool,
    pub bump: u8,
    pub nonce: u64,
}

/// One entry of a profile's notification log: who wrote, and how many
/// messages the entry stands for.
#[derive(Clone, Copy, Debug)]
pub struct MessageNotification {
    pub sender: Pubkey,
    pub nonce: u64,
    pub size: u64,
}

/// The compact, frequently rewritten half of a profile: counters and the
/// notification log.
#[derive(Clone, Debug)]
pub struct ProfileHeader {
    pub authority: Pubkey,
    pub vouch_nonce: u64,
    pub last_index: u64,
    pub notifications: Vec<MessageNotification>,
}

/// A named piece of profile text.
#[derive(Clone, Debug)]
pub struct Content {
    pub field: String,
    pub data: String,
}

/// A user's profile document.
#[derive(Clone, Debug)]
pub struct Profile {
    pub authority: Pubkey,
    pub index: u64,
    pub picture_url: String,
    pub content: Vec<Content>,
    pub social_media: Vec<Content>,
}

/// A user's indexing root, with the count of the user's projects.
#[derive(Clone, Copy, Debug)]
pub struct Portfolio {
    pub user_id: Pubkey,
    pub project_nonce: u64,
}

/// The counter of a user's projects; the next project is created under it.
#[derive(Clone, Copy, Debug)]
pub struct ProjectHeader {
    pub authority: Pubkey,
    pub nonce: u64,
}

/// One project entry of a user.
#[derive(Clone, Debug)]
pub struct Project {
    pub authority: Pubkey,
    pub project_url: String,
    pub description: String,
}

/// The metadata of a conversation between two identities.
#[derive(Clone, Copy, Debug)]
pub struct MessageHeader {
    pub members: [Pubkey; 2],
    pub nonce: u64,
    pub bump: u8,
}

/// One message of a conversation.
#[derive(Clone, Debug)]
pub struct Message {
    pub recipient: Pubkey,
    pub sender: Pubkey,
    pub content: String,
}

/// A record held at a derived address.
#[derive(Clone, Debug)]
pub enum Account {
    ProgramHeader(ProgramHeader),
    ProfileHeader(ProfileHeader),
    Profile(Profile),
    Portfolio(Portfolio),
    ProjectHeader(ProjectHeader),
    Project(Project),
    MessageHeader(MessageHeader),
    Message(Message),
}

/// The capacity limits that every stored record keeps.
pub open spec fn account_wf(a: Account) -> bool {
    match a {
        Account::Profile(p) => p.content@.len() <= MAX_LIST_ENTRIES && p.social_media@.len()
            <= MAX_LIST_ENTRIES,
        Account::ProfileHeader(h) => h.notifications@.len() <= MAX_NOTIFICATIONS,
        _ => true,
    }
}

/// The concatenation of two keys in canonical order: the smaller one first.
pub open spec fn canonical_pair(a: Pubkey, b: Pubkey) -> Seq<u8> {
    if bytes_lt(a@, b@) {
        a@ + b@
    } else {
        b@ + a@
    }
}

impl MessageHeader {
    /// The order-independent digest of a conversation's two members, which
    /// addresses the conversation's header.
    pub fn hash(members: [Pubkey; 2]) -> (r: [u8; 32])
        ensures
            r@ == sha256_digest(canonical_pair(members[0], members[1])),
    {
        let a = members[0];
        let b = members[1];
        if a.lt(&b) {
            crate::addressing::sha256_of_pair(&a, &b)
        } else {
            crate::addressing::sha256_of_pair(&b, &a)
        }
    }
}

} // verus!
