use vstd::prelude::*;
use crate::key::Pubkey;
use crate::ledger::{Ledger, ProgramError};
use crate::records::{Account, Profile, MAX_LIST_ENTRIES, PROFILE_BODY_SPACE};
use crate::editing::{ProfileParams, ProfileBody, apply_params, apply_methods_to, check_params, lemma_params_fit,
    body_bytes, body_fits, copy_entries};
use crate::validation::{profile_at, locate};

verus! {

/// The accounts of a profile update: the signer and the profile's address.
#[derive(Clone, Copy, Debug)]
pub struct UpdateProfile {
    pub authority: Pubkey,
    pub profile: Pubkey,
}

pub open spec fn body_of(p: Profile) -> ProfileBody {
    (p.picture_url, p.content@, p.social_media@)
}

/// What a profile update does: the profile's new body, or why it is refused.
pub open spec fn update_profile_result(
    m: Map<Seq<u8>, Account>,
    accounts: UpdateProfile,
    params: Seq<ProfileParams>,
) -> Result<ProfileBody, ProgramError> {
    match profile_at(m, accounts.profile) {
        Err(e) => Err(e),
        Ok(p) => if p.authority != accounts.authority {
            Err(ProgramError::AuthorityMismatch)
        } else {
            match apply_params(body_of(p), params) {
                Err(e) => Err(e),
                Ok(body) => if body_bytes(body) > PROFILE_BODY_SPACE {
                    Err(ProgramError::CapacityExceeded)
                } else {
                    Ok(body)
                },
            }
        },
    }
}

/// The record `after` is the profile `before` with its body replaced.
pub open spec fn profile_with_body(after: Account, before: Profile, body: ProfileBody) -> bool {
    match after {
        Account::Profile(p) => p.authority == before.authority && p.index == before.index
            && body_of(p) == body,
        _ => false,
    }
}

/// Applies a batch of changes to the signer's profile, in order and all or
/// nothing: picture replacements, and edits of the content and social-link
/// lists. The changed profile must still fit its reserved space.
pub fn update_profile(ledger: &mut Ledger, accounts: &UpdateProfile, params: Vec<ProfileParams>) -> (r: Result<(), ProgramError>)
    requires
        old(ledger).wf(),
    ensures
        final(ledger).wf(),
        final(ledger).id() == old(ledger).id(),
        match update_profile_result(old(ledger)@, *accounts, params@) {
            Ok(body) => r is Ok && final(ledger)@ == old(ledger)@.insert(
                accounts.profile@,
                final(ledger)@[accounts.profile@],
            ) && profile_with_body(
                final(ledger)@[accounts.profile@],
                profile_at(old(ledger)@, accounts.profile)->Ok_0,
                body,
            ),
            Err(e) => r == Err::<(), ProgramError>(e) && final(ledger)@ == old(ledger)@,
        },
{
    let i = match locate(ledger, &accounts.profile) {
        Ok(i) => i,
        Err(e) => {
            return Err(e);
        },
    };
    let (content_len, social_len) = match ledger.account_at(i) {
        Account::Profile(p) => {
            proof {
                crate::key::lemma_view_injective(p.authority, accounts.authority);
            }
            if p.authority != accounts.authority {
                return Err(ProgramError::AuthorityMismatch);
            }
            (p.content.len(), p.social_media.len())
        },
        _ => {
            return Err(ProgramError::AccountKindMismatch);
        },
    };
    let ghost before = profile_at(ledger@, accounts.profile)->Ok_0;
    proof {
        ledger.lemma_records_wf(accounts.profile@);
        assert(ledger.accounts@[i as int] == Account::Profile(before));
        assert(content_len == before.content@.len());
        assert(social_len == before.social_media@.len());
        lemma_params_fit(body_of(before), params@);
    }
    match check_params(content_len, social_len, &params) {
        Ok(()) => {},
        Err(e) => {
            return Err(e);
        },
    }
    let ghost start = *ledger;
    let mut profile = match ledger.account_at(i) {
        Account::Profile(p) => Profile {
            authority: p.authority,
            index: p.index,
            picture_url: p.picture_url.clone(),
            content: copy_entries(&p.content),
            social_media: copy_entries(&p.social_media),
        },
        _ => {
            return Err(ProgramError::AccountKindMismatch);
        },
    };
    let mut remaining = params;
    while remaining.len() > 0
        invariant
            profile.authority == before.authority,
            profile.index == before.index,
            apply_params(body_of(profile), remaining@) == apply_params(body_of(before), params@),
            apply_params(body_of(profile), remaining@) is Ok,
        decreases remaining@.len(),
    {
        let ghost rest = remaining@;
        let param = remaining.remove(0);
        assert(remaining@ =~= rest.drop_first());
        match param {
            ProfileParams::Picture { data } => {
                profile.picture_url = data;
            },
            ProfileParams::Content { data } => {
                apply_methods_to(&mut profile.content, data);
            },
            ProfileParams::Social { data } => {
                apply_methods_to(&mut profile.social_media, data);
            },
        }
    }
    assert(body_of(profile) == apply_params(body_of(before), params@)->Ok_0);
    if !body_fits(&profile.picture_url, &profile.content, &profile.social_media) {
        return Err(ProgramError::CapacityExceeded);
    }
    let ghost updated = Account::Profile(profile);
    ledger.replace(i, Account::Profile(profile));
    assert(ledger@ =~= start@.insert(accounts.profile@, updated));
    assert(ledger@[accounts.profile@] == updated);
    Ok(())
}

/// A batch whose first change appends to a content list that is already
/// full is refused with a capacity error, so the profile is left unchanged.
pub proof fn lemma_append_beyond_capacity_refused(
    m: Map<Seq<u8>, Account>,
    accounts: UpdateProfile,
    params: Seq<ProfileParams>,
)
    requires
        profile_at(m, accounts.profile) is Ok,
        profile_at(m, accounts.profile)->Ok_0.authority == accounts.authority,
        profile_at(m, accounts.profile)->Ok_0.content@.len() == MAX_LIST_ENTRIES,
        params.len() > 0,
        params[0] is Content,
        params[0]->Content_data@.len() > 0,
        params[0]->Content_data@[0] is Append,
    ensures
        update_profile_result(m, accounts, params) == Err::<ProfileBody, ProgramError>(
            ProgramError::CapacityExceeded,
        ),
{
    let ms = params[0]->Content_data@;
    crate::editing::lemma_append_to_full_list_fails(
        profile_at(m, accounts.profile)->Ok_0.content@,
        ms[0]->Append_content,
    );
}

} // verus!
