use vstd::prelude::*;
use crate::key::Pubkey;
use vstd::string::StringSliceAdditionalSpecFns;

verus! {

/// The SHA-256 digest of a byte string.
pub uninterp spec fn sha256_digest(data: Seq<u8>) -> Seq<u8>;

/// The program-derived address and bump seed that the host's address search
/// finds for a seed list under a program id, if it finds one.
pub uninterp spec fn program_address(seeds: Seq<Seq<u8>>, program_id: Seq<u8>) -> Option<(Seq<u8>, u8)>;

/// Relies on solana_program::hash::Hasher: feeding two slices and taking the
/// result gives the SHA-256 digest of their concatenation.
#[verifier::external_body]
pub(crate) fn sha256_of_pair(first: &Pubkey, second: &Pubkey) -> (r: [u8; 32])
    ensures
        r@ == sha256_digest(first@ + second@),
{
    let mut hasher = anchor_lang::solana_program::hash::Hasher::default();
    hasher.hash(&first.0);
    hasher.hash(&second.0);
    hasher.result().to_bytes()
}

/// Relies on solana_program::pubkey::Pubkey::try_find_program_address: the
/// search is a function of the seeds and the program id alone.
#[verifier::external_body]
fn try_find_program_address(seeds: &Vec<Vec<u8>>, program_id: &Pubkey) -> (r: Option<(Pubkey, u8)>)
    ensures
        found_view(r) == program_address(seeds_view(seeds@), program_id@),
{
    let slices: Vec<&[u8]> = seeds.iter().map(|s| s.as_slice()).collect();
    let program = anchor_lang::solana_program::pubkey::Pubkey::new_from_array(program_id.0);
    anchor_lang::solana_program::pubkey::Pubkey::try_find_program_address(&slices, &program)
        .map(|(k, bump)| (Pubkey(k.to_bytes()), bump))
}

pub open spec fn seeds_view(v: Seq<Vec<u8>>) -> Seq<Seq<u8>> {
    v.map_values(|s: Vec<u8>| s@)
}

pub open spec fn keys_view(keys: Seq<Pubkey>) -> Seq<Seq<u8>> {
    keys.map_values(|k: Pubkey| k@)
}

pub open spec fn found_view(r: Option<(Pubkey, u8)>) -> Option<(Seq<u8>, u8)> {
    match r {
        Some((k, bump)) => Some((k@, bump)),
        None => None,
    }
}

/// The namespace tag that opens the seed list of each kind of record.
#[derive(Clone, Copy, Debug, PartialEq, Eq, Structural)]
pub enum Namespace {
    Authority,
    Profile,
    ProfileHeader,
    Portfolio,
    ProjectHeader,
    Project,
    MessageHeader,
    Message,
}

pub open spec fn tag_seed(ns: Namespace) -> Seq<u8> {
    match ns {
        Namespace::Authority => "authority".spec_bytes(),
        Namespace::Profile => "profile".spec_bytes(),
        Namespace::ProfileHeader => "profile-header".spec_bytes(),
        Namespace::Portfolio => "portfolio".spec_bytes(),
        Namespace::ProjectHeader => "project-header".spec_bytes(),
        Namespace::Project => "project".spec_bytes(),
        Namespace::MessageHeader => "message-header".spec_bytes(),
        Namespace::Message => "message".spec_bytes(),
    }
}

impl Namespace {
    pub fn tag(&self) -> (r: Vec<u8>)
        ensures
            r@ == tag_seed(*self),
    {
        let s: &str = match self {
            Namespace::Authority => "authority",
            Namespace::Profile => "profile",
            Namespace::ProfileHeader => "profile-header",
            Namespace::Portfolio => "portfolio",
            Namespace::ProjectHeader => "project-header",
            Namespace::Project => "project",
            Namespace::MessageHeader => "message-header",
            Namespace::Message => "message",
        };
        copy_bytes(s.as_bytes())
    }
}

fn copy_bytes(b: &[u8]) -> (r: Vec<u8>)
    ensures
        r@ == b@,
{
    let mut r: Vec<u8> = Vec::new();
    let mut i: usize = 0;
    while i < b.len()
        invariant
            i <= b@.len(),
            r@ =~= b@.subrange(0, i as int),
        decreases b@.len() - i,
    {
        r.push(b[i]);
        i = i + 1;
    }
    r
}

/// The eight little-endian bytes of a counter, as it is laid out in a seed.
pub open spec fn le_bytes(n: u64) -> Seq<u8> {
    Seq::new(8, |i: int| (n >> (8 * i) as u64) as u8)
}

pub fn nonce_seed(n: u64) -> (r: Vec<u8>)
    ensures
        r@ == le_bytes(n),
{
    let mut r: Vec<u8> = Vec::new();
    let mut i: u64 = 0;
    while i < 8
        invariant
            i <= 8,
            r@ =~= le_bytes(n).subrange(0, i as int),
        decreases 8 - i,
    {
        r.push((n >> (8 * i)) as u8);
        i = i + 1;
    }
    r
}

/// The seed list of a record: its tag, the bytes of each parent key, and the
/// counter's bytes where there is one.
pub open spec fn seed_list(ns: Namespace, parents: Seq<Seq<u8>>, nonce: Option<u64>) -> Seq<Seq<u8>> {
    let base = seq![tag_seed(ns)] + parents;
    match nonce {
        Some(n) => base.push(le_bytes(n)),
        None => base,
    }
}

/// The derived address and bump of the record named by a tag, parents and counter.
pub open spec fn pda(program_id: Pubkey, ns: Namespace, parents: Seq<Seq<u8>>, nonce: Option<u64>) -> Option<(Seq<u8>, u8)> {
    program_address(seed_list(ns, parents, nonce), program_id@)
}

pub fn seeds(ns: Namespace, parents: &Vec<Pubkey>, nonce: Option<u64>) -> (r: Vec<Vec<u8>>)
    ensures
        seeds_view(r@) == seed_list(ns, keys_view(parents@), nonce),
{
    let mut r: Vec<Vec<u8>> = Vec::new();
    r.push(ns.tag());
    let mut i: usize = 0;
    while i < parents.len()
        invariant
            i <= parents@.len(),
            seeds_view(r@) =~= seq![tag_seed(ns)] + parents@.subrange(0, i as int).map_values(|k: Pubkey| k@),
        decreases parents@.len() - i,
    {
        let k = parents[i];
        let ghost before = r@;
        r.push(copy_bytes(&k.0));
        assert(seeds_view(r@) =~= seeds_view(before).push(k@));
        assert(parents@.subrange(0, i + 1) =~= parents@.subrange(0, i as int).push(k));
        assert(parents@.subrange(0, i + 1).map_values(|k: Pubkey| k@) =~= parents@.subrange(
            0,
            i as int,
        ).map_values(|k: Pubkey| k@).push(k@));
        i = i + 1;
    }
    assert(parents@.subrange(0, parents@.len() as int) =~= parents@);
    match nonce {
        Some(n) => {
            r.push(nonce_seed(n));
        },
        None => {},
    }
    assert(seeds_view(r@) =~= seed_list(ns, keys_view(parents@), nonce));
    r
}

/// Derives the address of the record named by a tag, parent keys and an
/// optional counter, together with its bump seed.
pub fn derive_address(program_id: &Pubkey, ns: Namespace, parents: &Vec<Pubkey>, nonce: Option<u64>) -> (r: Option<(Pubkey, u8)>)
    ensures
        found_view(r) == pda(*program_id, ns, keys_view(parents@), nonce),
{
    let s = seeds(ns, parents, nonce);
    try_find_program_address(&s, program_id)
}

/// Derivation is a function of its inputs: any two results that meet the
/// contract of `derive_address` for the same tag, parents and counter are the
/// same address and bump.
pub proof fn lemma_derive_deterministic(
    program_id: Pubkey,
    ns: Namespace,
    parents: Seq<Pubkey>,
    nonce: Option<u64>,
    first: Option<(Pubkey, u8)>,
    second: Option<(Pubkey, u8)>,
)
    requires
        found_view(first) == pda(program_id, ns, keys_view(parents), nonce),
        found_view(second) == pda(program_id, ns, keys_view(parents), nonce),
    ensures
        first == second,
{
    if let (Some((k1, _)), Some((k2, _))) = (first, second) {
        crate::key::lemma_view_injective(k1, k2);
    }
}

} // verus!
