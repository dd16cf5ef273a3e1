use vstd::prelude::*;
use crate::key::Pubkey;
use crate::addressing::{Namespace, keys_view};
use crate::ledger::{Ledger, ProgramError};
use crate::records::{Account, Portfolio, Profile, ProfileHeader, ProgramHeader, ProjectHeader};
use crate::validation::{
    seeds_check, check_seeds, free_at, check_free, program_authority_check, load_program_authority,
};

verus! {

/// The accounts that create the singleton header.
#[derive(Clone, Copy, Debug)]
pub struct Initialize {
    pub payer: Pubkey,
    pub new_program_header: Pubkey,
}

/// The accounts that create a user's profile and notification log.
#[derive(Clone, Copy, Debug)]
pub struct InitializeProfile {
    pub authority: Pubkey,
    pub program_authority: Pubkey,
    pub new_profile: Pubkey,
    pub new_profile_header: Pubkey,
}

/// The accounts that create a user's portfolio and project header.
#[derive(Clone, Copy, Debug)]
pub struct InitializePortfolio {
    pub authority: Pubkey,
    pub program_authority: Pubkey,
    pub new_project_header: Pubkey,
    pub new_portfolio: Pubkey,
}

/// Every profile has an index below `nonce`, and no two profiles share one.
pub open spec fn profiles_indexed(m: Map<Seq<u8>, Account>, nonce: u64) -> bool {
    &&& forall|a: Seq<u8>|
        #![trigger m[a]]
        m.dom().contains(a) && m[a] is Profile ==> m[a]->Profile_0.index < nonce
    &&& forall|a: Seq<u8>, b: Seq<u8>|
        #![trigger m[a], m[b]]
        m.dom().contains(a) && m.dom().contains(b) && a != b && m[a] is Profile && m[b] is Profile
            ==> m[a]->Profile_0.index != m[b]->Profile_0.index
}

/// The header at `header` exists, and every profile's index was issued by it.
pub open spec fn indexed_by_header(m: Map<Seq<u8>, Account>, header: Pubkey) -> bool {
    &&& m.dom().contains(header@)
    &&& m[header@] is ProgramHeader
    &&& profiles_indexed(m, m[header@]->ProgramHeader_0.nonce)
}

pub open spec fn holds_no_profile(m: Map<Seq<u8>, Account>) -> bool {
    forall|a: Seq<u8>| #![trigger m[a]] m.dom().contains(a) ==> !(m[a] is Profile)
}

pub open spec fn initialize_result(m: Map<Seq<u8>, Account>, program_id: Pubkey, accounts: Initialize) -> Result<u8, ProgramError> {
    match seeds_check(program_id, Namespace::Authority, seq![], None, accounts.new_program_header) {
        Err(e) => Err(e),
        Ok(bump) => match free_at(m, accounts.new_program_header) {
            Err(e) => Err(e),
            Ok(_) => Ok(bump),
        },
    }
}

/// Creates the singleton header: initialized, with its issuance counter at zero.
pub fn initialize(ledger: &mut Ledger, accounts: &Initialize) -> (r: Result<(), ProgramError>)
    requires
        old(ledger).wf(),
    ensures
        final(ledger).wf(),
        final(ledger).id() == old(ledger).id(),
        match initialize_result(old(ledger)@, old(ledger).id(), *accounts) {
            Ok(bump) => r is Ok && final(ledger)@ == old(ledger)@.insert(
                accounts.new_program_header@,
                Account::ProgramHeader(
                    ProgramHeader { is_initialized: true, is_authority: true, bump, nonce: 0 },
                ),
            ),
            Err(e) => r == Err::<(), ProgramError>(e) && final(ledger)@ == old(ledger)@,
        },
        r is Ok && holds_no_profile(old(ledger)@) ==> indexed_by_header(
            final(ledger)@,
            accounts.new_program_header,
        ),
{
    let program_id = ledger.program_id();
    let no_parents: Vec<Pubkey> = Vec::new();
    assert(keys_view(no_parents@) =~= seq![]);
    let bump = match check_seeds(&program_id, Namespace::Authority, &no_parents, None, &accounts.new_program_header) {
        Ok(b) => b,
        Err(e) => {
            return Err(e);
        },
    };
    match check_free(ledger, &accounts.new_program_header) {
        Ok(()) => {},
        Err(e) => {
            return Err(e);
        },
    }
    let header = ProgramHeader { is_initialized: true, is_authority: true, bump, nonce: 0 };
    ledger.create(accounts.new_program_header, Account::ProgramHeader(header));
    Ok(())
}

pub open spec fn initialize_profile_result(
    m: Map<Seq<u8>, Account>,
    program_id: Pubkey,
    accounts: InitializeProfile,
) -> Result<ProgramHeader, ProgramError> {
    match program_authority_check(m, program_id, accounts.program_authority) {
        Err(e) => Err(e),
        Ok(h) => match seeds_check(
            program_id,
            Namespace::Profile,
            seq![accounts.program_authority@, accounts.authority@],
            None,
            accounts.new_profile,
        ) {
            Err(e) => Err(e),
            Ok(_) => match seeds_check(
                program_id,
                Namespace::ProfileHeader,
                seq![accounts.new_profile@],
                None,
                accounts.new_profile_header,
            ) {
                Err(e) => Err(e),
                Ok(_) => if m.dom().contains(accounts.new_profile@) || m.dom().contains(
                    accounts.new_profile_header@,
                ) || accounts.new_profile@ == accounts.new_profile_header@ {
                    Err(ProgramError::AccountInUse)
                } else if h.nonce == u64::MAX {
                    Err(ProgramError::CounterOverflow)
                } else {
                    Ok(h)
                },
            },
        },
    }
}

/// The record is a fresh profile of `authority` with issuance index `index`.
pub open spec fn is_new_profile(a: Account, authority: Pubkey, index: u64) -> bool {
    match a {
        Account::Profile(p) => p.authority == authority && p.index == index && p.picture_url@
            == Seq::<char>::empty() && p.content@ == Seq::<crate::records::Content>::empty()
            && p.social_media@ == Seq::<crate::records::Content>::empty(),
        _ => false,
    }
}

/// The record is a fresh, empty notification log of `authority`.
pub open spec fn is_new_profile_header(a: Account, authority: Pubkey) -> bool {
    match a {
        Account::ProfileHeader(h) => h.authority == authority && h.vouch_nonce == 0 && h.last_index
            == 0 && h.notifications@.len() == 0,
        _ => false,
    }
}

/// One successful profile initialization: `after` is `before` with the
/// header's counter advanced by one, a fresh profile indexed by the counter's
/// old value, and a fresh notification log.
pub open spec fn profile_step(
    before: Map<Seq<u8>, Account>,
    after: Map<Seq<u8>, Account>,
    program_id: Pubkey,
    accounts: InitializeProfile,
) -> bool {
    match initialize_profile_result(before, program_id, accounts) {
        Ok(h) => after == before.insert(
            accounts.program_authority@,
            Account::ProgramHeader(
                ProgramHeader {
                    is_initialized: h.is_initialized,
                    is_authority: h.is_authority,
                    bump: h.bump,
                    nonce: (h.nonce + 1) as u64,
                },
            ),
        ).insert(accounts.new_profile@, after[accounts.new_profile@]).insert(
            accounts.new_profile_header@,
            after[accounts.new_profile_header@],
        ) && is_new_profile(after[accounts.new_profile@], accounts.authority, h.nonce)
            && is_new_profile_header(after[accounts.new_profile_header@], accounts.authority),
        Err(_) => false,
    }
}

/// A profile initialization keeps every profile's index issued by the header,
/// and advances the header's counter by exactly one.
pub proof fn lemma_profile_step_keeps_indices(
    before: Map<Seq<u8>, Account>,
    after: Map<Seq<u8>, Account>,
    program_id: Pubkey,
    accounts: InitializeProfile,
)
    requires
        profile_step(before, after, program_id, accounts),
        indexed_by_header(before, accounts.program_authority),
    ensures
        indexed_by_header(after, accounts.program_authority),
        after[accounts.program_authority@]->ProgramHeader_0.nonce == before[accounts.program_authority@]->ProgramHeader_0.nonce
            + 1,
{
    let h = initialize_profile_result(before, program_id, accounts)->Ok_0;
    let pa = accounts.program_authority@;
    let np = accounts.new_profile@;
    assert(after[pa] is ProgramHeader && after[pa]->ProgramHeader_0.nonce == h.nonce + 1);
    assert forall|a: Seq<u8>| #![trigger after[a]]
        after.dom().contains(a) && after[a] is Profile implies after[a]->Profile_0.index < h.nonce + 1 by {
        if a != np {
            assert(before.dom().contains(a) && before[a] == after[a]);
        }
    }
    assert forall|a: Seq<u8>, b: Seq<u8>| #![trigger after[a], after[b]]
        after.dom().contains(a) && after.dom().contains(b) && a != b && after[a] is Profile
            && after[b] is Profile implies after[a]->Profile_0.index != after[b]->Profile_0.index by {
        if a != np {
            assert(before.dom().contains(a) && before[a] == after[a]);
        }
        if b != np {
            assert(before.dom().contains(b) && before[b] == after[b]);
        }
    }
}

/// After any run of successful profile initializations under one header,
/// starting from a state whose profiles were all issued by it, the header's
/// counter has advanced by the number of runs, and the profiles' indices are
/// pairwise distinct and all below it. Starting from a fresh header (counter
/// zero, no profile), the counter equals the number of profiles created.
pub proof fn lemma_profile_indices_after_steps(
    states: Seq<Map<Seq<u8>, Account>>,
    program_id: Pubkey,
    program_authority: Pubkey,
    steps: Seq<InitializeProfile>,
)
    requires
        states.len() == steps.len() + 1,
        indexed_by_header(states[0], program_authority),
        forall|i: int|
            0 <= i < steps.len() ==> #[trigger] steps[i].program_authority == program_authority
                && profile_step(states[i], states[i + 1], program_id, steps[i]),
    ensures
        indexed_by_header(states.last(), program_authority),
        states.last()[program_authority@]->ProgramHeader_0.nonce == states[0][program_authority@]->ProgramHeader_0.nonce
            + steps.len(),
    decreases steps.len(),
{
    if steps.len() > 0 {
        let n = (steps.len() - 1) as int;
        lemma_profile_indices_after_steps(states.drop_last(), program_id, program_authority, steps.drop_last());
        assert(steps[n].program_authority == program_authority);
        lemma_profile_step_keeps_indices(states[n], states[n + 1], program_id, steps[n]);
    }
}

/// Creates the signer's profile, with the header's current issuance counter as
/// its index, and its notification log; the counter then advances by one.
pub fn initialize_profile(ledger: &mut Ledger, accounts: &InitializeProfile) -> (r: Result<(), ProgramError>)
    requires
        old(ledger).wf(),
    ensures
        final(ledger).wf(),
        final(ledger).id() == old(ledger).id(),
        match initialize_profile_result(old(ledger)@, old(ledger).id(), *accounts) {
            Ok(_) => r is Ok && profile_step(old(ledger)@, final(ledger)@, old(ledger).id(), *accounts),
            Err(e) => r == Err::<(), ProgramError>(e) && final(ledger)@ == old(ledger)@,
        },
        r is Ok && indexed_by_header(old(ledger)@, accounts.program_authority) ==> indexed_by_header(
            final(ledger)@,
            accounts.program_authority,
        ),
{
    let ghost start = *ledger;
    let (hi, header) = match load_program_authority(ledger, &accounts.program_authority) {
        Ok(found) => found,
        Err(e) => {
            return Err(e);
        },
    };
    let program_id = ledger.program_id();
    let mut parents: Vec<Pubkey> = Vec::new();
    parents.push(accounts.program_authority);
    parents.push(accounts.authority);
    assert(keys_view(parents@) =~= seq![accounts.program_authority@, accounts.authority@]);
    match check_seeds(&program_id, Namespace::Profile, &parents, None, &accounts.new_profile) {
        Ok(_) => {},
        Err(e) => {
            return Err(e);
        },
    }
    let mut header_parents: Vec<Pubkey> = Vec::new();
    header_parents.push(accounts.new_profile);
    assert(keys_view(header_parents@) =~= seq![accounts.new_profile@]);
    match check_seeds(&program_id, Namespace::ProfileHeader, &header_parents, None, &accounts.new_profile_header) {
        Ok(_) => {},
        Err(e) => {
            return Err(e);
        },
    }
    if check_free(ledger, &accounts.new_profile).is_err() || check_free(ledger, &accounts.new_profile_header).is_err()
        || accounts.new_profile == accounts.new_profile_header {
        return Err(ProgramError::AccountInUse);
    }
    if header.nonce == u64::MAX {
        return Err(ProgramError::CounterOverflow);
    }
    let advanced = ProgramHeader {
        is_initialized: header.is_initialized,
        is_authority: header.is_authority,
        bump: header.bump,
        nonce: header.nonce + 1,
    };
    ledger.replace(hi, Account::ProgramHeader(advanced));
    let new_profile = Profile {
        authority: accounts.authority,
        index: header.nonce,
        picture_url: String::new(),
        content: Vec::new(),
        social_media: Vec::new(),
    };
    let ghost profile = Account::Profile(new_profile);
    ledger.create(accounts.new_profile, Account::Profile(new_profile));
    let new_header = ProfileHeader {
        authority: accounts.authority,
        vouch_nonce: 0,
        last_index: 0,
        notifications: Vec::new(),
    };
    let ghost log = Account::ProfileHeader(new_header);
    ledger.create(accounts.new_profile_header, Account::ProfileHeader(new_header));
    let ghost m = ledger@;
    assert(m =~= start@.insert(accounts.program_authority@, Account::ProgramHeader(advanced)).insert(
        accounts.new_profile@,
        profile,
    ).insert(accounts.new_profile_header@, log));
    assert(m[accounts.new_profile@] == profile);
    assert(m[accounts.new_profile_header@] == log);
    proof {
        if indexed_by_header(start@, accounts.program_authority) {
            lemma_profile_step_keeps_indices(start@, m, start.id(), *accounts);
        }
    }
    Ok(())
}

pub open spec fn initialize_portfolio_result(
    m: Map<Seq<u8>, Account>,
    program_id: Pubkey,
    accounts: InitializePortfolio,
) -> Result<ProgramHeader, ProgramError> {
    match program_authority_check(m, program_id, accounts.program_authority) {
        Err(e) => Err(e),
        Ok(h) => match seeds_check(
            program_id,
            Namespace::ProjectHeader,
            seq![accounts.program_authority@, accounts.authority@],
            None,
            accounts.new_project_header,
        ) {
            Err(e) => Err(e),
            Ok(_) => match seeds_check(
                program_id,
                Namespace::Portfolio,
                seq![accounts.program_authority@],
                Some(h.nonce),
                accounts.new_portfolio,
            ) {
                Err(e) => Err(e),
                Ok(_) => if m.dom().contains(accounts.new_project_header@) || m.dom().contains(
                    accounts.new_portfolio@,
                ) || accounts.new_project_header@ == accounts.new_portfolio@ {
                    Err(ProgramError::AccountInUse)
                } else {
                    Ok(h)
                },
            },
        },
    }
}

/// Creates the signer's project header and a portfolio entry under the
/// header's current issuance counter, both with their counters at zero.
pub fn initialize_portfolio(ledger: &mut Ledger, accounts: &InitializePortfolio) -> (r: Result<(), ProgramError>)
    requires
        old(ledger).wf(),
    ensures
        final(ledger).wf(),
        final(ledger).id() == old(ledger).id(),
        match initialize_portfolio_result(old(ledger)@, old(ledger).id(), *accounts) {
            Ok(_) => r is Ok && final(ledger)@ == old(ledger)@.insert(
                accounts.new_project_header@,
                Account::ProjectHeader(ProjectHeader { authority: accounts.authority, nonce: 0 }),
            ).insert(
                accounts.new_portfolio@,
                Account::Portfolio(Portfolio { user_id: accounts.authority, project_nonce: 0 }),
            ),
            Err(e) => r == Err::<(), ProgramError>(e) && final(ledger)@ == old(ledger)@,
        },
{
    let (_, header) = match load_program_authority(ledger, &accounts.program_authority) {
        Ok(found) => found,
        Err(e) => {
            return Err(e);
        },
    };
    let program_id = ledger.program_id();
    let mut parents: Vec<Pubkey> = Vec::new();
    parents.push(accounts.program_authority);
    parents.push(accounts.authority);
    assert(keys_view(parents@) =~= seq![accounts.program_authority@, accounts.authority@]);
    match check_seeds(&program_id, Namespace::ProjectHeader, &parents, None, &accounts.new_project_header) {
        Ok(_) => {},
        Err(e) => {
            return Err(e);
        },
    }
    let mut portfolio_parents: Vec<Pubkey> = Vec::new();
    portfolio_parents.push(accounts.program_authority);
    assert(keys_view(portfolio_parents@) =~= seq![accounts.program_authority@]);
    match check_seeds(&program_id, Namespace::Portfolio, &portfolio_parents, Some(header.nonce), &accounts.new_portfolio) {
        Ok(_) => {},
        Err(e) => {
            return Err(e);
        },
    }
    if check_free(ledger, &accounts.new_project_header).is_err() || check_free(ledger, &accounts.new_portfolio).is_err()
        || accounts.new_project_header == accounts.new_portfolio {
        return Err(ProgramError::AccountInUse);
    }
    ledger.create(
        accounts.new_project_header,
        Account::ProjectHeader(ProjectHeader { authority: accounts.authority, nonce: 0 }),
    );
    ledger.create(
        accounts.new_portfolio,
        Account::Portfolio(Portfolio { user_id: accounts.authority, project_nonce: 0 }),
    );
    Ok(())
}

} // verus!
