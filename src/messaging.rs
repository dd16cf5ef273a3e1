use vstd::prelude::*;
use crate::key::{Pubkey, bytes_lt};
use crate::addressing::{Namespace, sha256_digest, keys_view, pda};
use crate::ledger::{Ledger, ProgramError, MessageError};
use crate::records::{
    Account, Message, MessageHeader, MessageNotification, ProfileHeader, ProgramHeader,
    canonical_pair, MAX_NOTIFICATIONS, MAX_MESSAGE_TEXT_BYTES,
};
use crate::validation::{
    seeds_check, check_seeds, free_at, check_free, profile_header_at, message_header_at, locate,
    byte_len, text_bytes,
};

verus! {

/// How a message is announced in the recipient's notification log.
#[derive(Clone, Copy, Debug, PartialEq, Eq, Structural)]
pub enum MessageParams {
    /// The first message of an exchange: a new log entry.
    Append,
    /// A further message of an exchange: the entry at `index` grows by one.
    Update { index: u64 },
}

/// The accounts that open a conversation between two identities.
#[derive(Clone, Copy, Debug)]
pub struct InitializeMessageHeader {
    pub sender: Pubkey,
    pub recipient: Pubkey,
    pub new_message_header: Pubkey,
}

/// The accounts of one message: the two identities, the recipient's
/// notification log, the conversation's header and the new message's address.
#[derive(Clone, Copy, Debug)]
pub struct PostMessage {
    pub sender: Pubkey,
    pub recipient: Pubkey,
    pub profile_header: Pubkey,
    pub message_header: Pubkey,
    pub message: Pubkey,
}

/// The seed that names the conversation of two identities, in whichever
/// order they are given.
pub open spec fn pair_seed(a: Pubkey, b: Pubkey) -> Seq<u8> {
    sha256_digest(canonical_pair(a, b))
}

/// The pair digest does not depend on which member is named first.
pub proof fn lemma_pair_seed_symmetric(a: Pubkey, b: Pubkey)
    ensures
        pair_seed(a, b) == pair_seed(b, a),
        canonical_pair(a, b) == canonical_pair(b, a),
{
    crate::key::lemma_lt_total(a, b);
    if a@ == b@ {
        assert(canonical_pair(a, b) =~= canonical_pair(b, a));
    }
}

/// The two members of a conversation, the smaller key first.
pub open spec fn sorted_members(sender: Pubkey, recipient: Pubkey) -> [Pubkey; 2] {
    if bytes_lt(recipient@, sender@) {
        [recipient, sender]
    } else {
        [sender, recipient]
    }
}

/// What opening a conversation does: the bump of its header, or why it is refused.
pub open spec fn initialize_message_header_result(
    m: Map<Seq<u8>, Account>,
    program_id: Pubkey,
    accounts: InitializeMessageHeader,
) -> Result<u8, ProgramError> {
    match seeds_check(
        program_id,
        Namespace::MessageHeader,
        seq![pair_seed(accounts.sender, accounts.recipient)],
        None,
        accounts.new_message_header,
    ) {
        Err(e) => Err(e),
        Ok(bump) => match free_at(m, accounts.new_message_header) {
            Err(e) => Err(e),
            Ok(_) => Ok(bump),
        },
    }
}

/// Creates the header of the conversation between the signer and a
/// recipient, at the address derived from the pair's order-independent digest.
pub fn initialize_message_header(ledger: &mut Ledger, accounts: &InitializeMessageHeader) -> (r: Result<(), ProgramError>)
    requires
        old(ledger).wf(),
    ensures
        final(ledger).wf(),
        final(ledger).id() == old(ledger).id(),
        match initialize_message_header_result(old(ledger)@, old(ledger).id(), *accounts) {
            Ok(bump) => r is Ok && final(ledger)@ == old(ledger)@.insert(
                accounts.new_message_header@,
                Account::MessageHeader(
                    MessageHeader {
                        members: sorted_members(accounts.sender, accounts.recipient),
                        nonce: 0,
                        bump,
                    },
                ),
            ),
            Err(e) => r == Err::<(), ProgramError>(e) && final(ledger)@ == old(ledger)@,
        },
{
    let digest = MessageHeader::hash([accounts.sender, accounts.recipient]);
    let mut parents: Vec<Pubkey> = Vec::new();
    parents.push(Pubkey(digest));
    assert(keys_view(parents@) =~= seq![pair_seed(accounts.sender, accounts.recipient)]);
    let program_id = ledger.program_id();
    let bump = match check_seeds(&program_id, Namespace::MessageHeader, &parents, None, &accounts.new_message_header) {
        Ok(b) => b,
        Err(e) => {
            return Err(e);
        },
    };
    match check_free(ledger, &accounts.new_message_header) {
        Ok(()) => {},
        Err(e) => {
            return Err(e);
        },
    }
    let members = if accounts.recipient.lt(&accounts.sender) {
        [accounts.recipient, accounts.sender]
    } else {
        [accounts.sender, accounts.recipient]
    };
    assert(members =~= sorted_members(accounts.sender, accounts.recipient));
    ledger.create(accounts.new_message_header, Account::MessageHeader(MessageHeader { members, nonce: 0, bump }));
    Ok(())
}

/// The notification log after announcing one message from `sender`: the new
/// `last_index` and entries, or why the announcement is refused.
///
/// An append is refused where the entry last touched already belongs to the
/// sender; the slot at the log's current length, where the new entry goes, is
/// free by construction. An update trusts the caller's index and does not
/// compare the entry's sender.
pub open spec fn notify(h: ProfileHeader, sender: Pubkey, params: MessageParams) -> Result<
    (u64, Seq<MessageNotification>),
    ProgramError,
> {
    let ns = h.notifications@;
    match params {
        MessageParams::Append => if h.last_index < ns.len() && ns[h.last_index as int].sender@
            == sender@ {
            Err(ProgramError::Message(MessageError::SendAsUpdate))
        } else if ns.len() >= MAX_NOTIFICATIONS {
            Err(ProgramError::CapacityExceeded)
        } else {
            Ok((ns.len() as u64, ns.push(MessageNotification { sender, nonce: 0, size: 1 })))
        },
        MessageParams::Update { index } => if index >= ns.len() {
            Err(ProgramError::IndexOutOfBounds)
        } else if ns[index as int].size == u64::MAX {
            Err(ProgramError::CounterOverflow)
        } else {
            let n = ns[index as int];
            Ok(
                (
                    index,
                    ns.update(
                        index as int,
                        MessageNotification { sender: n.sender, nonce: n.nonce, size: (n.size + 1) as u64 },
                    ),
                ),
            )
        },
    }
}

/// What posting a message does: the recipient's new log state and the
/// conversation's header before the post, or why it is refused.
pub open spec fn post_message_result(
    m: Map<Seq<u8>, Account>,
    program_id: Pubkey,
    accounts: PostMessage,
    params: MessageParams,
    data: Seq<char>,
) -> Result<((u64, Seq<MessageNotification>), MessageHeader), ProgramError> {
    match profile_header_at(m, accounts.profile_header) {
        Err(e) => Err(e),
        Ok(ph) => if ph.authority@ != accounts.recipient@ {
            Err(ProgramError::AuthorityMismatch)
        } else {
            match notify(ph, accounts.sender, params) {
                Err(e) => Err(e),
                Ok(log) => match seeds_check(
                    program_id,
                    Namespace::MessageHeader,
                    seq![pair_seed(accounts.sender, accounts.recipient)],
                    None,
                    accounts.message_header,
                ) {
                    Err(e) => Err(e),
                    Ok(_) => match message_header_at(m, accounts.message_header) {
                        Err(e) => Err(e),
                        Ok(mh) => match seeds_check(
                            program_id,
                            Namespace::Message,
                            seq![accounts.message_header@],
                            Some(mh.nonce),
                            accounts.message,
                        ) {
                            Err(e) => Err(e),
                            Ok(_) => match free_at(m, accounts.message) {
                                Err(e) => Err(e),
                                Ok(_) => if byte_len(data) > MAX_MESSAGE_TEXT_BYTES {
                                    Err(ProgramError::CapacityExceeded)
                                } else if mh.nonce == u64::MAX {
                                    Err(ProgramError::CounterOverflow)
                                } else {
                                    Ok((log, mh))
                                },
                            },
                        },
                    },
                },
            }
        },
    }
}

/// The record `after` is the log `before` with new bookkeeping.
pub open spec fn header_with_log(after: Account, before: ProfileHeader, log: (u64, Seq<MessageNotification>)) -> bool {
    match after {
        Account::ProfileHeader(h) => h.authority == before.authority && h.vouch_nonce
            == before.vouch_nonce && h.last_index == log.0 && h.notifications@ == log.1,
        _ => false,
    }
}

/// The record is the message from `sender` to `recipient` with text `data`.
pub open spec fn is_message(a: Account, sender: Pubkey, recipient: Pubkey, data: Seq<char>) -> bool {
    match a {
        Account::Message(msg) => msg.sender == sender && msg.recipient == recipient && msg.content@
            == data,
        _ => false,
    }
}

fn check_notification(h: &ProfileHeader, sender: &Pubkey, params: MessageParams) -> (r: Result<(), ProgramError>)
    ensures
        match notify(*h, *sender, params) {
            Ok(_) => r is Ok,
            Err(e) => r == Err::<(), ProgramError>(e),
        },
{
    match params {
        MessageParams::Append => {
            let last = h.last_index;
            if last < h.notifications.len() as u64 && h.notifications[last as usize].sender == *sender {
                return Err(ProgramError::Message(MessageError::SendAsUpdate));
            }
            if h.notifications.len() >= MAX_NOTIFICATIONS {
                return Err(ProgramError::CapacityExceeded);
            }
        },
        MessageParams::Update { index } => {
            if index >= h.notifications.len() as u64 {
                return Err(ProgramError::IndexOutOfBounds);
            }
            if h.notifications[index as usize].size == u64::MAX {
                return Err(ProgramError::CounterOverflow);
            }
        },
    }
    Ok(())
}

fn apply_notification(h: &mut ProfileHeader, sender: &Pubkey, params: MessageParams) -> (r: Result<(), ProgramError>)
    ensures
        match notify(*old(h), *sender, params) {
            Ok(log) => r is Ok && final(h).authority == old(h).authority && final(h).vouch_nonce
                == old(h).vouch_nonce && final(h).last_index == log.0 && final(h).notifications@
                == log.1,
            Err(e) => r == Err::<(), ProgramError>(e) && *final(h) == *old(h),
        },
{
    match params {
        MessageParams::Append => {
            let last = h.last_index;
            if last < h.notifications.len() as u64 && h.notifications[last as usize].sender == *sender {
                return Err(ProgramError::Message(MessageError::SendAsUpdate));
            }
            if h.notifications.len() >= MAX_NOTIFICATIONS {
                return Err(ProgramError::CapacityExceeded);
            }
            h.last_index = h.notifications.len() as u64;
            h.notifications.push(MessageNotification { sender: *sender, nonce: 0, size: 1 });
        },
        MessageParams::Update { index } => {
            if index >= h.notifications.len() as u64 {
                return Err(ProgramError::IndexOutOfBounds);
            }
            let n = h.notifications[index as usize];
            if n.size == u64::MAX {
                return Err(ProgramError::CounterOverflow);
            }
            h.last_index = index;
            h.notifications.set(index as usize, MessageNotification { sender: n.sender, nonce: n.nonce, size: n.size + 1 });
        },
    }
    Ok(())
}

/// Posts one message: creates it at the address derived from the
/// conversation's header and counter, advances the counter, and announces the
/// message in the recipient's notification log.
pub fn post_message(ledger: &mut Ledger, accounts: &PostMessage, params: MessageParams, data: String) -> (r: Result<(), ProgramError>)
    requires
        old(ledger).wf(),
    ensures
        final(ledger).wf(),
        final(ledger).id() == old(ledger).id(),
        match post_message_result(old(ledger)@, old(ledger).id(), *accounts, params, data@) {
            Ok((log, mh)) => r is Ok && final(ledger)@ == old(ledger)@.insert(
                accounts.profile_header@,
                final(ledger)@[accounts.profile_header@],
            ).insert(
                accounts.message_header@,
                Account::MessageHeader(
                    MessageHeader { members: mh.members, nonce: (mh.nonce + 1) as u64, bump: mh.bump },
                ),
            ).insert(accounts.message@, final(ledger)@[accounts.message@]) && header_with_log(
                final(ledger)@[accounts.profile_header@],
                profile_header_at(old(ledger)@, accounts.profile_header)->Ok_0,
                log,
            ) && is_message(
                final(ledger)@[accounts.message@],
                accounts.sender,
                accounts.recipient,
                data@,
            ),
            Err(e) => r == Err::<(), ProgramError>(e) && final(ledger)@ == old(ledger)@,
        },
{
    let ghost start = *ledger;
    let pi = match locate(ledger, &accounts.profile_header) {
        Ok(i) => i,
        Err(e) => {
            return Err(e);
        },
    };
    let ghost ph = profile_header_at(ledger@, accounts.profile_header)->Ok_0;
    match ledger.account_at(pi) {
        Account::ProfileHeader(h) => {
            if h.authority != accounts.recipient {
                return Err(ProgramError::AuthorityMismatch);
            }
            match check_notification(h, &accounts.sender, params) {
                Ok(()) => {},
                Err(e) => {
                    return Err(e);
                },
            }
        },
        _ => {
            return Err(ProgramError::AccountKindMismatch);
        },
    }
    proof {
        ledger.lemma_records_wf(accounts.profile_header@);
    }
    let digest = MessageHeader::hash([accounts.sender, accounts.recipient]);
    let mut parents: Vec<Pubkey> = Vec::new();
    parents.push(Pubkey(digest));
    assert(keys_view(parents@) =~= seq![pair_seed(accounts.sender, accounts.recipient)]);
    let program_id = ledger.program_id();
    match check_seeds(&program_id, Namespace::MessageHeader, &parents, None, &accounts.message_header) {
        Ok(_) => {},
        Err(e) => {
            return Err(e);
        },
    }
    let mi = match locate(ledger, &accounts.message_header) {
        Ok(i) => i,
        Err(e) => {
            return Err(e);
        },
    };
    let mh = match ledger.account_at(mi) {
        Account::MessageHeader(h) => *h,
        _ => {
            return Err(ProgramError::AccountKindMismatch);
        },
    };
    let mut message_parents: Vec<Pubkey> = Vec::new();
    message_parents.push(accounts.message_header);
    assert(keys_view(message_parents@) =~= seq![accounts.message_header@]);
    match check_seeds(&program_id, Namespace::Message, &message_parents, Some(mh.nonce), &accounts.message) {
        Ok(_) => {},
        Err(e) => {
            return Err(e);
        },
    }
    match check_free(ledger, &accounts.message) {
        Ok(()) => {},
        Err(e) => {
            return Err(e);
        },
    }
    if text_bytes(&data) > MAX_MESSAGE_TEXT_BYTES {
        return Err(ProgramError::CapacityExceeded);
    }
    if mh.nonce == u64::MAX {
        return Err(ProgramError::CounterOverflow);
    }
    assert(accounts.profile_header@ != accounts.message_header@);
    let placeholder = Account::ProgramHeader(
        ProgramHeader { is_initialized: false, is_authority: false, bump: 0, nonce: 0 },
    );
    let taken = ledger.replace(pi, placeholder);
    let mut log = match taken {
        Account::ProfileHeader(h) => h,
        _ => {
            return Err(ProgramError::AccountKindMismatch);
        },
    };
    let _ = apply_notification(&mut log, &accounts.sender, params);
    let ghost updated = Account::ProfileHeader(log);
    ledger.replace(pi, Account::ProfileHeader(log));
    let next = MessageHeader { members: mh.members, nonce: mh.nonce + 1, bump: mh.bump };
    ledger.replace(mi, Account::MessageHeader(next));
    let ghost posted = Account::Message(
        Message { recipient: accounts.recipient, sender: accounts.sender, content: data },
    );
    ledger.create(
        accounts.message,
        Account::Message(Message { recipient: accounts.recipient, sender: accounts.sender, content: data }),
    );
    assert(ledger@ =~= start@.insert(accounts.profile_header@, updated).insert(
        accounts.message_header@,
        Account::MessageHeader(next),
    ).insert(accounts.message@, posted));
    Ok(())
}

/// Opening a conversation from either side addresses the same header, and
/// once it has been opened from one side, opening it from the other is refused
/// because the address is taken.
pub proof fn lemma_conversation_opened_once(
    m: Map<Seq<u8>, Account>,
    program_id: Pubkey,
    a: Pubkey,
    b: Pubkey,
    header: Pubkey,
    created: Account,
)
    ensures
        pda(program_id, Namespace::MessageHeader, seq![pair_seed(a, b)], None) == pda(
            program_id,
            Namespace::MessageHeader,
            seq![pair_seed(b, a)],
            None,
        ),
        initialize_message_header_result(
            m,
            program_id,
            InitializeMessageHeader { sender: a, recipient: b, new_message_header: header },
        ) is Ok ==> initialize_message_header_result(
            m.insert(header@, created),
            program_id,
            InitializeMessageHeader { sender: b, recipient: a, new_message_header: header },
        ) == Err::<u8, ProgramError>(ProgramError::AccountInUse),
{
    lemma_pair_seed_symmetric(a, b);
}

/// Two appends in a row by the same sender: once the first has been
/// announced, the second is refused as one that should have been an update.
pub proof fn lemma_second_append_refused(
    m1: Map<Seq<u8>, Account>,
    m2: Map<Seq<u8>, Account>,
    program_id: Pubkey,
    accounts: PostMessage,
    first: Seq<char>,
    second: Seq<char>,
)
    requires
        post_message_result(m1, program_id, accounts, MessageParams::Append, first) is Ok,
        m2.dom().contains(accounts.profile_header@),
        header_with_log(
            m2[accounts.profile_header@],
            profile_header_at(m1, accounts.profile_header)->Ok_0,
            post_message_result(m1, program_id, accounts, MessageParams::Append, first)->Ok_0.0,
        ),
    ensures
        post_message_result(m2, program_id, accounts, MessageParams::Append, second) == Err::<
            ((u64, Seq<MessageNotification>), MessageHeader),
            ProgramError,
        >(ProgramError::Message(MessageError::SendAsUpdate)),
{
    let h2 = m2[accounts.profile_header@]->ProfileHeader_0;
    assert(h2.notifications@[h2.last_index as int].sender == accounts.sender);
}

} // verus!
