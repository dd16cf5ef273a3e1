use vstd::prelude::*;
use crate::key::Pubkey;
use crate::addressing::{Namespace, keys_view};
use crate::ledger::{Ledger, ProgramError};
use crate::records::{Account, Project, ProjectHeader, MAX_PROJECT_TEXT_BYTES};
use crate::validation::{
    seeds_check, check_seeds, free_at, check_free, program_authority_check, load_program_authority,
    project_header_at, project_at, locate, byte_len, text_bytes,
};

verus! {

/// The accounts of a new project: the signer, the singleton header, the
/// signer's project header and the new project's address.
#[derive(Clone, Copy, Debug)]
pub struct AddProject {
    pub authority: Pubkey,
    pub program_authority: Pubkey,
    pub project_header: Pubkey,
    pub new_project: Pubkey,
}

/// The accounts of a project edit: the signer and the project's address.
#[derive(Clone, Copy, Debug)]
pub struct UpdateProject {
    pub authority: Pubkey,
    pub project: Pubkey,
}

/// A project's url and description fit the project's reserved space.
pub open spec fn project_text_fits(url: Seq<char>, description: Seq<char>) -> bool {
    byte_len(url) as int + byte_len(description) as int <= MAX_PROJECT_TEXT_BYTES as int
}

fn text_fits(url: &String, description: &String) -> (r: bool)
    ensures
        r == project_text_fits(url@, description@),
{
    let u = text_bytes(url);
    let d = text_bytes(description);
    u <= MAX_PROJECT_TEXT_BYTES && d <= MAX_PROJECT_TEXT_BYTES - u
}

/// What adding a project does: the project header before the addition, or why
/// it is refused.
pub open spec fn add_project_result(
    m: Map<Seq<u8>, Account>,
    program_id: Pubkey,
    accounts: AddProject,
    url: Seq<char>,
    description: Seq<char>,
) -> Result<ProjectHeader, ProgramError> {
    match program_authority_check(m, program_id, accounts.program_authority) {
        Err(e) => Err(e),
        Ok(_) => match project_header_at(m, accounts.project_header) {
            Err(e) => Err(e),
            Ok(ph) => if ph.authority@ != accounts.authority@ {
                Err(ProgramError::AuthorityMismatch)
            } else {
                match seeds_check(
                    program_id,
                    Namespace::Project,
                    seq![accounts.program_authority@, accounts.authority@],
                    Some(ph.nonce),
                    accounts.new_project,
                ) {
                    Err(e) => Err(e),
                    Ok(_) => match free_at(m, accounts.new_project) {
                        Err(e) => Err(e),
                        Ok(_) => if !project_text_fits(url, description) {
                            Err(ProgramError::CapacityExceeded)
                        } else if ph.nonce == u64::MAX {
                            Err(ProgramError::CounterOverflow)
                        } else {
                            Ok(ph)
                        },
                    },
                }
            },
        },
    }
}

/// The record is the project of `authority` with this url and description.
pub open spec fn is_project(a: Account, authority: Pubkey, url: Seq<char>, description: Seq<char>) -> bool {
    match a {
        Account::Project(p) => p.authority == authority && p.project_url@ == url && p.description@
            == description,
        _ => false,
    }
}

/// Creates a project of the signer at the address derived from the project
/// header's counter, then advances the counter by one.
pub fn add_project(ledger: &mut Ledger, accounts: &AddProject, url: String, description: String) -> (r: Result<(), ProgramError>)
    requires
        old(ledger).wf(),
    ensures
        final(ledger).wf(),
        final(ledger).id() == old(ledger).id(),
        match add_project_result(old(ledger)@, old(ledger).id(), *accounts, url@, description@) {
            Ok(ph) => r is Ok && final(ledger)@ == old(ledger)@.insert(
                accounts.project_header@,
                Account::ProjectHeader(ProjectHeader { authority: ph.authority, nonce: (ph.nonce + 1) as u64 }),
            ).insert(accounts.new_project@, final(ledger)@[accounts.new_project@]) && is_project(
                final(ledger)@[accounts.new_project@],
                accounts.authority,
                url@,
                description@,
            ),
            Err(e) => r == Err::<(), ProgramError>(e) && final(ledger)@ == old(ledger)@,
        },
{
    let ghost start = *ledger;
    match load_program_authority(ledger, &accounts.program_authority) {
        Ok(_) => {},
        Err(e) => {
            return Err(e);
        },
    }
    let hi = match locate(ledger, &accounts.project_header) {
        Ok(i) => i,
        Err(e) => {
            return Err(e);
        },
    };
    let header = match ledger.account_at(hi) {
        Account::ProjectHeader(h) => *h,
        _ => {
            return Err(ProgramError::AccountKindMismatch);
        },
    };
    if header.authority != accounts.authority {
        return Err(ProgramError::AuthorityMismatch);
    }
    let program_id = ledger.program_id();
    let mut parents: Vec<Pubkey> = Vec::new();
    parents.push(accounts.program_authority);
    parents.push(accounts.authority);
    assert(keys_view(parents@) =~= seq![accounts.program_authority@, accounts.authority@]);
    match check_seeds(&program_id, Namespace::Project, &parents, Some(header.nonce), &accounts.new_project) {
        Ok(_) => {},
        Err(e) => {
            return Err(e);
        },
    }
    match check_free(ledger, &accounts.new_project) {
        Ok(()) => {},
        Err(e) => {
            return Err(e);
        },
    }
    if !text_fits(&url, &description) {
        return Err(ProgramError::CapacityExceeded);
    }
    if header.nonce == u64::MAX {
        return Err(ProgramError::CounterOverflow);
    }
    let advanced = ProjectHeader { authority: header.authority, nonce: header.nonce + 1 };
    ledger.replace(hi, Account::ProjectHeader(advanced));
    let project = Project { authority: accounts.authority, project_url: url, description };
    let ghost created = Account::Project(project);
    ledger.create(accounts.new_project, Account::Project(project));
    assert(ledger@ =~= start@.insert(accounts.project_header@, Account::ProjectHeader(advanced)).insert(
        accounts.new_project@,
        created,
    ));
    Ok(())
}

/// What editing a project does: the project before the edit, or why it is refused.
pub open spec fn update_project_result(
    m: Map<Seq<u8>, Account>,
    accounts: UpdateProject,
    url: Seq<char>,
    description: Seq<char>,
) -> Result<Project, ProgramError> {
    match project_at(m, accounts.project) {
        Err(e) => Err(e),
        Ok(p) => if p.authority@ != accounts.authority@ {
            Err(ProgramError::AuthorityMismatch)
        } else if !project_text_fits(url, description) {
            Err(ProgramError::CapacityExceeded)
        } else {
            Ok(p)
        },
    }
}

/// Overwrites the url and description of one of the signer's projects.
pub fn update_project(ledger: &mut Ledger, accounts: &UpdateProject, url: String, description: String) -> (r: Result<(), ProgramError>)
    requires
        old(ledger).wf(),
    ensures
        final(ledger).wf(),
        final(ledger).id() == old(ledger).id(),
        match update_project_result(old(ledger)@, *accounts, url@, description@) {
            Ok(p) => r is Ok && final(ledger)@ == old(ledger)@.insert(
                accounts.project@,
                final(ledger)@[accounts.project@],
            ) && is_project(final(ledger)@[accounts.project@], p.authority, url@, description@),
            Err(e) => r == Err::<(), ProgramError>(e) && final(ledger)@ == old(ledger)@,
        },
{
    let ghost start = *ledger;
    let i = match locate(ledger, &accounts.project) {
        Ok(i) => i,
        Err(e) => {
            return Err(e);
        },
    };
    let owner = match ledger.account_at(i) {
        Account::Project(p) => p.authority,
        _ => {
            return Err(ProgramError::AccountKindMismatch);
        },
    };
    if owner != accounts.authority {
        return Err(ProgramError::AuthorityMismatch);
    }
    if !text_fits(&url, &description) {
        return Err(ProgramError::CapacityExceeded);
    }
    let project = Project { authority: owner, project_url: url, description };
    let ghost edited = Account::Project(project);
    ledger.replace(i, Account::Project(project));
    assert(ledger@ =~= start@.insert(accounts.project@, edited));
    Ok(())
}

} // verus!
