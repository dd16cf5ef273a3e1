use vstd::prelude::*;
use crate::key::Pubkey;
use crate::addressing::{Namespace, pda, derive_address, keys_view};
use crate::ledger::{Ledger, ProgramError};
use crate::records::{Account, ProgramHeader, ProfileHeader, Profile, ProjectHeader, Project, MessageHeader};

verus! {

/// A supplied address checked against the one derived from a record's seeds:
/// the bump seed where they agree.
pub open spec fn seeds_check(
    program_id: Pubkey,
    ns: Namespace,
    parents: Seq<Seq<u8>>,
    nonce: Option<u64>,
    given: Pubkey,
) -> Result<u8, ProgramError> {
    match pda(program_id, ns, parents, nonce) {
        None => Err(ProgramError::AddressDerivationFailed),
        Some((a, bump)) => if a == given@ {
            Ok(bump)
        } else {
            Err(ProgramError::SeedsMismatch)
        },
    }
}

pub fn check_seeds(
    program_id: &Pubkey,
    ns: Namespace,
    parents: &Vec<Pubkey>,
    nonce: Option<u64>,
    given: &Pubkey,
) -> (r: Result<u8, ProgramError>)
    ensures
        r == seeds_check(*program_id, ns, keys_view(parents@), nonce, *given),
{
    match derive_address(program_id, ns, parents, nonce) {
        None => Err(ProgramError::AddressDerivationFailed),
        Some((a, bump)) => if a == *given {
            Ok(bump)
        } else {
            Err(ProgramError::SeedsMismatch)
        },
    }
}

/// The number of bytes that a text takes in UTF-8, as the text reports it.
pub open spec fn byte_len(s: Seq<char>) -> usize {
    vstd::utf8::encode_utf8(s).len() as usize
}

pub fn text_bytes(s: &String) -> (r: usize)
    ensures
        r == byte_len(s@),
{
    s.as_str().len()
}

pub open spec fn record_at(m: Map<Seq<u8>, Account>, a: Pubkey) -> Result<Account, ProgramError> {
    if m.dom().contains(a@) {
        Ok(m[a@])
    } else {
        Err(ProgramError::AccountNotFound)
    }
}

pub open spec fn free_at(m: Map<Seq<u8>, Account>, a: Pubkey) -> Result<(), ProgramError> {
    if m.dom().contains(a@) {
        Err(ProgramError::AccountInUse)
    } else {
        Ok(())
    }
}

pub open spec fn program_header_at(m: Map<Seq<u8>, Account>, a: Pubkey) -> Result<ProgramHeader, ProgramError> {
    match record_at(m, a) {
        Ok(Account::ProgramHeader(h)) => Ok(h),
        Ok(_) => Err(ProgramError::AccountKindMismatch),
        Err(e) => Err(e),
    }
}

pub open spec fn profile_header_at(m: Map<Seq<u8>, Account>, a: Pubkey) -> Result<ProfileHeader, ProgramError> {
    match record_at(m, a) {
        Ok(Account::ProfileHeader(h)) => Ok(h),
        Ok(_) => Err(ProgramError::AccountKindMismatch),
        Err(e) => Err(e),
    }
}

pub open spec fn profile_at(m: Map<Seq<u8>, Account>, a: Pubkey) -> Result<Profile, ProgramError> {
    match record_at(m, a) {
        Ok(Account::Profile(p)) => Ok(p),
        Ok(_) => Err(ProgramError::AccountKindMismatch),
        Err(e) => Err(e),
    }
}

pub open spec fn project_header_at(m: Map<Seq<u8>, Account>, a: Pubkey) -> Result<ProjectHeader, ProgramError> {
    match record_at(m, a) {
        Ok(Account::ProjectHeader(h)) => Ok(h),
        Ok(_) => Err(ProgramError::AccountKindMismatch),
        Err(e) => Err(e),
    }
}

pub open spec fn project_at(m: Map<Seq<u8>, Account>, a: Pubkey) -> Result<Project, ProgramError> {
    match record_at(m, a) {
        Ok(Account::Project(p)) => Ok(p),
        Ok(_) => Err(ProgramError::AccountKindMismatch),
        Err(e) => Err(e),
    }
}

pub open spec fn message_header_at(m: Map<Seq<u8>, Account>, a: Pubkey) -> Result<MessageHeader, ProgramError> {
    match record_at(m, a) {
        Ok(Account::MessageHeader(h)) => Ok(h),
        Ok(_) => Err(ProgramError::AccountKindMismatch),
        Err(e) => Err(e),
    }
}

/// The singleton header at a supplied address, checked against its seeds.
pub open spec fn program_authority_check(m: Map<Seq<u8>, Account>, program_id: Pubkey, a: Pubkey) -> Result<ProgramHeader, ProgramError> {
    match seeds_check(program_id, Namespace::Authority, seq![], None, a) {
        Err(e) => Err(e),
        Ok(_) => program_header_at(m, a),
    }
}

pub(crate) fn load_program_authority(ledger: &Ledger, a: &Pubkey) -> (r: Result<(usize, ProgramHeader), ProgramError>)
    requires
        ledger.wf(),
    ensures
        match program_authority_check(ledger@, ledger.id(), *a) {
            Ok(h) => r matches Ok((i, g)) && g == h && i < ledger.keys@.len() && ledger.keys@[i as int]@ == a@
                && ledger.accounts@[i as int] == Account::ProgramHeader(h),
            Err(e) => r == Err::<(usize, ProgramHeader), ProgramError>(e),
        },
{
    let program_id = ledger.program_id();
    let no_parents: Vec<Pubkey> = Vec::new();
    assert(keys_view(no_parents@) =~= seq![]);
    match check_seeds(&program_id, Namespace::Authority, &no_parents, None, a) {
        Ok(_) => {},
        Err(e) => {
            return Err(e);
        },
    }
    let i = match locate(ledger, a) {
        Ok(i) => i,
        Err(e) => {
            return Err(e);
        },
    };
    match ledger.account_at(i) {
        Account::ProgramHeader(h) => Ok((i, *h)),
        _ => Err(ProgramError::AccountKindMismatch),
    }
}

/// The position of the record held at an address.
pub(crate) fn locate(ledger: &Ledger, a: &Pubkey) -> (r: Result<usize, ProgramError>)
    requires
        ledger.wf(),
    ensures
        match r {
            Ok(i) => i < ledger.keys@.len() && ledger.keys@[i as int]@ == a@ && record_at(ledger@, *a)
                == Ok::<Account, ProgramError>(ledger.accounts@[i as int]),
            Err(e) => record_at(ledger@, *a) == Err::<Account, ProgramError>(e),
        },
{
    match ledger.find(a) {
        Some(i) => Ok(i),
        None => Err(ProgramError::AccountNotFound),
    }
}

pub(crate) fn check_free(ledger: &Ledger, a: &Pubkey) -> (r: Result<(), ProgramError>)
    requires
        ledger.wf(),
    ensures
        r == free_at(ledger@, *a),
{
    match ledger.find(a) {
        Some(_) => Err(ProgramError::AccountInUse),
        None => Ok(()),
    }
}

} // verus!
