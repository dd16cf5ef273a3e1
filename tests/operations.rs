use on_chain_portfolio::addressing::{derive_address, nonce_seed, Namespace};
use on_chain_portfolio::editing::{Method, ProfileParams};
use on_chain_portfolio::key::Pubkey;
use on_chain_portfolio::ledger::{Ledger, MessageError, ProgramError};
use on_chain_portfolio::messaging::{
    initialize_message_header, post_message, InitializeMessageHeader, MessageParams, PostMessage,
};
use on_chain_portfolio::projects::{add_project, update_project, AddProject, UpdateProject};
use on_chain_portfolio::records::{Account, Content, MessageHeader, MAX_LIST_ENTRIES};
use on_chain_portfolio::setup::{
    initialize, initialize_portfolio, initialize_profile, Initialize, InitializePortfolio,
    InitializeProfile,
};
use on_chain_portfolio::profile::{update_profile, UpdateProfile};

fn key(n: u8) -> Pubkey {
    Pubkey([n; 32])
}

fn program() -> Pubkey {
    key(200)
}

fn addr(ns: Namespace, parents: Vec<Pubkey>, nonce: Option<u64>) -> Pubkey {
    derive_address(&program(), ns, &parents, nonce).unwrap().0
}

fn authority_addr() -> Pubkey {
    addr(Namespace::Authority, vec![], None)
}

fn profile_addr(user: Pubkey) -> Pubkey {
    addr(Namespace::Profile, vec![authority_addr(), user], None)
}

fn profile_header_addr(user: Pubkey) -> Pubkey {
    addr(Namespace::ProfileHeader, vec![profile_addr(user)], None)
}

fn conversation_addr(a: Pubkey, b: Pubkey) -> Pubkey {
    addr(Namespace::MessageHeader, vec![Pubkey(MessageHeader::hash([a, b]))], None)
}

fn started() -> Ledger {
    let mut ledger = Ledger::new(program());
    let r = initialize(&mut ledger, &Initialize { payer: key(1), new_program_header: authority_addr() });
    assert_eq!(r, Ok(()));
    ledger
}

fn add_profile(ledger: &mut Ledger, user: Pubkey) -> Result<(), ProgramError> {
    initialize_profile(
        ledger,
        &InitializeProfile {
            authority: user,
            program_authority: authority_addr(),
            new_profile: profile_addr(user),
            new_profile_header: profile_header_addr(user),
        },
    )
}

fn header_nonce(ledger: &Ledger) -> u64 {
    match ledger.get(&authority_addr()) {
        Some(Account::ProgramHeader(h)) => h.nonce,
        _ => panic!("no program header"),
    }
}

fn profile_of(ledger: &Ledger, user: Pubkey) -> (u64, String, Vec<(String, String)>, Vec<(String, String)>) {
    match ledger.get(&profile_addr(user)) {
        Some(Account::Profile(p)) => (
            p.index,
            p.picture_url.clone(),
            p.content.iter().map(|c| (c.field.clone(), c.data.clone())).collect(),
            p.social_media.iter().map(|c| (c.field.clone(), c.data.clone())).collect(),
        ),
        _ => panic!("no profile"),
    }
}

fn content(field: &str, data: &str) -> Content {
    Content { field: field.to_string(), data: data.to_string() }
}

fn appends(n: usize) -> Vec<Method> {
    (0..n).map(|i| Method::Append { content: content(&format!("f{}", i), "d") }).collect()
}

#[test]
fn derive_is_deterministic() {
    let parents = vec![key(3), key(4)];
    let first = derive_address(&program(), Namespace::Project, &parents, Some(7));
    let second = derive_address(&program(), Namespace::Project, &parents, Some(7));
    assert!(first.is_some());
    assert_eq!(first.map(|(k, b)| (k.0, b)), second.map(|(k, b)| (k.0, b)));
    let other = derive_address(&program(), Namespace::Project, &parents, Some(8));
    assert_ne!(first.map(|(k, _)| k.0), other.map(|(k, _)| k.0));
}

#[test]
fn nonce_seed_is_little_endian() {
    assert_eq!(nonce_seed(0x0102_0304_0506_0708), vec![8, 7, 6, 5, 4, 3, 2, 1]);
    assert_eq!(nonce_seed(0), vec![0; 8]);
}

#[test]
fn key_order_is_lexicographic() {
    let mut a = [0u8; 32];
    let mut b = [0u8; 32];
    a[5] = 1;
    b[5] = 2;
    b[0] = 0;
    assert!(Pubkey(a).lt(&Pubkey(b)));
    assert!(!Pubkey(b).lt(&Pubkey(a)));
    assert!(!Pubkey(a).lt(&Pubkey(a)));
    b[0] = 0;
    a[0] = 1;
    assert!(Pubkey(b).lt(&Pubkey(a)));
}

#[test]
fn pair_hash_is_symmetric() {
    let a = key(10);
    let b = key(20);
    assert_eq!(MessageHeader::hash([a, b]), MessageHeader::hash([b, a]));
    assert_ne!(MessageHeader::hash([a, b]), MessageHeader::hash([a, key(21)]));
    assert_ne!(MessageHeader::hash([a, b]), a.0);
}

#[test]
fn initialize_twice_fails() {
    let mut ledger = started();
    let r = initialize(&mut ledger, &Initialize { payer: key(1), new_program_header: authority_addr() });
    assert_eq!(r, Err(ProgramError::AccountInUse));
    let r = initialize(&mut Ledger::new(program()), &Initialize { payer: key(1), new_program_header: key(9) });
    assert_eq!(r, Err(ProgramError::SeedsMismatch));
}

#[test]
fn profiles_take_distinct_indices() {
    let mut ledger = started();
    let n: u8 = 5;
    for u in 0..n {
        assert_eq!(add_profile(&mut ledger, key(50 + u)), Ok(()));
    }
    assert_eq!(header_nonce(&ledger), n as u64);
    let mut indices: Vec<u64> = (0..n).map(|u| profile_of(&ledger, key(50 + u)).0).collect();
    assert_eq!(indices, vec![0, 1, 2, 3, 4]);
    indices.dedup();
    assert_eq!(indices.len(), n as usize);
    assert_eq!(add_profile(&mut ledger, key(50)), Err(ProgramError::AccountInUse));
    assert_eq!(header_nonce(&ledger), n as u64);
}

#[test]
fn profile_needs_program_header() {
    let mut ledger = Ledger::new(program());
    assert_eq!(add_profile(&mut ledger, key(1)), Err(ProgramError::AccountNotFound));
}

#[test]
fn append_beyond_capacity_fails() {
    let mut ledger = started();
    let user = key(30);
    add_profile(&mut ledger, user).unwrap();
    let accounts = UpdateProfile { authority: user, profile: profile_addr(user) };
    let r = update_profile(&mut ledger, &accounts, vec![ProfileParams::Content { data: appends(MAX_LIST_ENTRIES) }]);
    assert_eq!(r, Ok(()));
    let before = profile_of(&ledger, user);
    assert_eq!(before.2.len(), MAX_LIST_ENTRIES);
    let r = update_profile(
        &mut ledger,
        &accounts,
        vec![
            ProfileParams::Picture { data: "pic".to_string() },
            ProfileParams::Content { data: appends(1) },
        ],
    );
    assert_eq!(r, Err(ProgramError::CapacityExceeded));
    assert_eq!(profile_of(&ledger, user), before);
}

#[test]
fn update_with_other_field_is_noop() {
    let mut ledger = started();
    let user = key(31);
    add_profile(&mut ledger, user).unwrap();
    let accounts = UpdateProfile { authority: user, profile: profile_addr(user) };
    update_profile(&mut ledger, &accounts, vec![ProfileParams::Social { data: vec![
        Method::Append { content: content("github", "a") },
        Method::Append { content: content("x", "b") },
    ] }]).unwrap();
    let r = update_profile(&mut ledger, &accounts, vec![ProfileParams::Social { data: vec![
        Method::Update { index: 0, content: content("mastodon", "c") },
    ] }]);
    assert_eq!(r, Ok(()));
    let p = profile_of(&ledger, user);
    assert_eq!(p.3, vec![("github".to_string(), "a".to_string()), ("x".to_string(), "b".to_string())]);
    let r = update_profile(&mut ledger, &accounts, vec![ProfileParams::Social { data: vec![
        Method::Update { index: 0, content: content("github", "c") },
    ] }]);
    assert_eq!(r, Ok(()));
    assert_eq!(profile_of(&ledger, user).3[0], ("github".to_string(), "c".to_string()));
}

#[test]
fn delete_moves_last_into_place() {
    let mut ledger = started();
    let user = key(32);
    add_profile(&mut ledger, user).unwrap();
    let accounts = UpdateProfile { authority: user, profile: profile_addr(user) };
    update_profile(&mut ledger, &accounts, vec![ProfileParams::Content { data: vec![
        Method::Append { content: content("a", "1") },
        Method::Append { content: content("b", "2") },
        Method::Append { content: content("c", "3") },
    ] }]).unwrap();
    let r = update_profile(&mut ledger, &accounts, vec![ProfileParams::Content { data: vec![Method::Delete { index: 0 }] }]);
    assert_eq!(r, Ok(()));
    let p = profile_of(&ledger, user);
    assert_eq!(p.2, vec![("c".to_string(), "3".to_string()), ("b".to_string(), "2".to_string())]);
    let r = update_profile(&mut ledger, &accounts, vec![ProfileParams::Content { data: vec![Method::Delete { index: 2 }] }]);
    assert_eq!(r, Err(ProgramError::IndexOutOfBounds));
}

#[test]
fn picture_and_batches_apply_in_order() {
    let mut ledger = started();
    let user = key(33);
    add_profile(&mut ledger, user).unwrap();
    let accounts = UpdateProfile { authority: user, profile: profile_addr(user) };
    let r = update_profile(&mut ledger, &accounts, vec![
        ProfileParams::Picture { data: "one".to_string() },
        ProfileParams::Content { data: vec![Method::Append { content: content("bio", "hi") }] },
        ProfileParams::Picture { data: "two".to_string() },
    ]);
    assert_eq!(r, Ok(()));
    let p = profile_of(&ledger, user);
    assert_eq!(p.1, "two");
    assert_eq!(p.2, vec![("bio".to_string(), "hi".to_string())]);
}

#[test]
fn update_profile_checks_authority() {
    let mut ledger = started();
    let user = key(34);
    add_profile(&mut ledger, user).unwrap();
    let r = update_profile(
        &mut ledger,
        &UpdateProfile { authority: key(35), profile: profile_addr(user) },
        vec![ProfileParams::Picture { data: "x".to_string() }],
    );
    assert_eq!(r, Err(ProgramError::AuthorityMismatch));
    let r = update_profile(
        &mut ledger,
        &UpdateProfile { authority: user, profile: authority_addr() },
        vec![ProfileParams::Picture { data: "x".to_string() }],
    );
    assert_eq!(r, Err(ProgramError::AccountKindMismatch));
    assert_eq!(profile_of(&ledger, user).1, "");
}

#[test]
fn conversation_header_is_shared() {
    let mut ledger = started();
    let a = key(40);
    let b = key(41);
    assert_eq!(conversation_addr(a, b), conversation_addr(b, a));
    let header = conversation_addr(a, b);
    let r = initialize_message_header(&mut ledger, &InitializeMessageHeader { sender: a, recipient: b, new_message_header: header });
    assert_eq!(r, Ok(()));
    match ledger.get(&header) {
        Some(Account::MessageHeader(h)) => {
            assert_eq!(h.nonce, 0);
            assert_eq!(h.members[0], a);
            assert_eq!(h.members[1], b);
        },
        _ => panic!("no message header"),
    }
    let r = initialize_message_header(&mut ledger, &InitializeMessageHeader { sender: b, recipient: a, new_message_header: header });
    assert_eq!(r, Err(ProgramError::AccountInUse));
    let r = initialize_message_header(&mut ledger, &InitializeMessageHeader { sender: a, recipient: key(42), new_message_header: header });
    assert_eq!(r, Err(ProgramError::SeedsMismatch));
}

fn message_accounts(ledger: &Ledger, sender: Pubkey, recipient: Pubkey) -> PostMessage {
    let header = conversation_addr(sender, recipient);
    let nonce = match ledger.get(&header) {
        Some(Account::MessageHeader(h)) => h.nonce,
        _ => panic!("no message header"),
    };
    PostMessage {
        sender,
        recipient,
        profile_header: profile_header_addr(recipient),
        message_header: header,
        message: addr(Namespace::Message, vec![header], Some(nonce)),
    }
}

fn notifications(ledger: &Ledger, user: Pubkey) -> (u64, Vec<(Pubkey, u64)>) {
    match ledger.get(&profile_header_addr(user)) {
        Some(Account::ProfileHeader(h)) => (h.last_index, h.notifications.iter().map(|n| (n.sender, n.size)).collect()),
        _ => panic!("no profile header"),
    }
}

#[test]
fn second_append_is_refused() {
    let mut ledger = started();
    let a = key(60);
    let b = key(61);
    add_profile(&mut ledger, b).unwrap();
    initialize_message_header(&mut ledger, &InitializeMessageHeader { sender: a, recipient: b, new_message_header: conversation_addr(a, b) }).unwrap();
    let accounts = message_accounts(&ledger, a, b);
    assert_eq!(post_message(&mut ledger, &accounts, MessageParams::Append, "hello".to_string()), Ok(()));
    assert_eq!(notifications(&ledger, b), (0, vec![(a, 1)]));
    let accounts = message_accounts(&ledger, a, b);
    let r = post_message(&mut ledger, &accounts, MessageParams::Append, "again".to_string());
    assert_eq!(r, Err(ProgramError::Message(MessageError::SendAsUpdate)));
    assert!(ledger.get(&accounts.message).is_none());
    let r = post_message(&mut ledger, &accounts, MessageParams::Update { index: 0 }, "again".to_string());
    assert_eq!(r, Ok(()));
    assert_eq!(notifications(&ledger, b), (0, vec![(a, 2)]));
    match ledger.get(&accounts.message) {
        Some(Account::Message(m)) => {
            assert_eq!(m.content, "again");
            assert_eq!(m.sender, a);
            assert_eq!(m.recipient, b);
        },
        _ => panic!("no message"),
    }
    match ledger.get(&conversation_addr(a, b)) {
        Some(Account::MessageHeader(h)) => assert_eq!(h.nonce, 2),
        _ => panic!("no message header"),
    }
    let accounts = message_accounts(&ledger, a, b);
    let r = post_message(&mut ledger, &accounts, MessageParams::Update { index: 5 }, "x".to_string());
    assert_eq!(r, Err(ProgramError::IndexOutOfBounds));
}

#[test]
fn second_sender_appends_new_entry() {
    let mut ledger = started();
    let a = key(62);
    let c = key(63);
    let b = key(64);
    add_profile(&mut ledger, b).unwrap();
    for s in [a, c] {
        initialize_message_header(&mut ledger, &InitializeMessageHeader { sender: s, recipient: b, new_message_header: conversation_addr(s, b) }).unwrap();
        let accounts = message_accounts(&ledger, s, b);
        assert_eq!(post_message(&mut ledger, &accounts, MessageParams::Append, "hi".to_string()), Ok(()));
    }
    assert_eq!(notifications(&ledger, b), (1, vec![(a, 1), (c, 1)]));
}

#[test]
fn message_text_is_capped() {
    let mut ledger = started();
    let a = key(65);
    let b = key(66);
    add_profile(&mut ledger, b).unwrap();
    initialize_message_header(&mut ledger, &InitializeMessageHeader { sender: a, recipient: b, new_message_header: conversation_addr(a, b) }).unwrap();
    let accounts = message_accounts(&ledger, a, b);
    let r = post_message(&mut ledger, &accounts, MessageParams::Append, "x".repeat(2049));
    assert_eq!(r, Err(ProgramError::CapacityExceeded));
    assert_eq!(notifications(&ledger, b), (0, vec![]));
    let mut wrong = accounts;
    wrong.recipient = a;
    let r = post_message(&mut ledger, &wrong, MessageParams::Append, "x".to_string());
    assert_eq!(r, Err(ProgramError::AuthorityMismatch));
}

#[test]
fn end_to_end_project() {
    let mut ledger = started();
    let user = key(70);
    add_profile(&mut ledger, user).unwrap();
    let project_header = addr(Namespace::ProjectHeader, vec![authority_addr(), user], None);
    let portfolio = addr(Namespace::Portfolio, vec![authority_addr()], Some(header_nonce(&ledger)));
    let r = initialize_portfolio(&mut ledger, &InitializePortfolio {
        authority: user,
        program_authority: authority_addr(),
        new_project_header: project_header,
        new_portfolio: portfolio,
    });
    assert_eq!(r, Ok(()));
    match ledger.get(&portfolio) {
        Some(Account::Portfolio(p)) => {
            assert_eq!(p.user_id, user);
            assert_eq!(p.project_nonce, 0);
        },
        _ => panic!("no portfolio"),
    }
    let new_project = addr(Namespace::Project, vec![authority_addr(), user], Some(0));
    let accounts = AddProject { authority: user, program_authority: authority_addr(), project_header, new_project };
    let r = add_project(&mut ledger, &accounts, "url1".to_string(), "d1".to_string());
    assert_eq!(r, Ok(()));
    match ledger.get(&project_header) {
        Some(Account::ProjectHeader(h)) => assert_eq!(h.nonce, 1),
        _ => panic!("no project header"),
    }
    match ledger.get(&new_project) {
        Some(Account::Project(p)) => {
            assert_eq!(p.project_url, "url1");
            assert_eq!(p.description, "d1");
            assert_eq!(p.authority, user);
        },
        _ => panic!("no project"),
    }
    assert!(ledger.get(&addr(Namespace::Project, vec![authority_addr(), user], Some(1))).is_none());
    let r = add_project(&mut ledger, &accounts, "url2".to_string(), "d2".to_string());
    assert_eq!(r, Err(ProgramError::SeedsMismatch));
    let r = update_project(&mut ledger, &UpdateProject { authority: user, project: new_project }, "u".to_string(), "d".to_string());
    assert_eq!(r, Ok(()));
    let r = update_project(&mut ledger, &UpdateProject { authority: key(71), project: new_project }, "v".to_string(), "e".to_string());
    assert_eq!(r, Err(ProgramError::AuthorityMismatch));
    match ledger.get(&new_project) {
        Some(Account::Project(p)) => assert_eq!((p.project_url.as_str(), p.description.as_str()), ("u", "d")),
        _ => panic!("no project"),
    }
    let r = update_project(&mut ledger, &UpdateProject { authority: user, project: new_project }, "u".repeat(2000), "d".repeat(49));
    assert_eq!(r, Err(ProgramError::CapacityExceeded));
}

#[test]
fn project_text_limit_counts_length_prefixes() {
    let mut ledger = started();
    let user = key(72);
    add_profile(&mut ledger, user).unwrap();
    let project_header = addr(Namespace::ProjectHeader, vec![authority_addr(), user], None);
    let portfolio = addr(Namespace::Portfolio, vec![authority_addr()], Some(header_nonce(&ledger)));
    initialize_portfolio(&mut ledger, &InitializePortfolio {
        authority: user,
        program_authority: authority_addr(),
        new_project_header: project_header,
        new_portfolio: portfolio,
    })
    .unwrap();
    let new_project = addr(Namespace::Project, vec![authority_addr(), user], Some(0));
    let accounts = AddProject { authority: user, program_authority: authority_addr(), project_header, new_project };
    let r = add_project(&mut ledger, &accounts, "u".repeat(2000), "d".repeat(45));
    assert_eq!(r, Err(ProgramError::CapacityExceeded));
    let r = add_project(&mut ledger, &accounts, "u".repeat(2000), "d".repeat(41));
    assert_eq!(r, Err(ProgramError::CapacityExceeded));
    assert!(ledger.get(&new_project).is_none());
    match ledger.get(&project_header) {
        Some(Account::ProjectHeader(h)) => assert_eq!(h.nonce, 0),
        _ => panic!("no project header"),
    }
    let r = add_project(&mut ledger, &accounts, "u".repeat(2000), "d".repeat(40));
    assert_eq!(r, Ok(()));
    let edit = UpdateProject { authority: user, project: new_project };
    assert_eq!(update_project(&mut ledger, &edit, "é".repeat(1000), "d".repeat(41)), Err(ProgramError::CapacityExceeded));
    assert_eq!(update_project(&mut ledger, &edit, "é".repeat(1000), "d".repeat(40)), Ok(()));
}

#[test]
fn message_text_limit() {
    let mut ledger = started();
    let a = key(73);
    let b = key(74);
    add_profile(&mut ledger, b).unwrap();
    initialize_message_header(&mut ledger, &InitializeMessageHeader { sender: a, recipient: b, new_message_header: conversation_addr(a, b) }).unwrap();
    let accounts = message_accounts(&ledger, a, b);
    let r = post_message(&mut ledger, &accounts, MessageParams::Append, "x".repeat(1981));
    assert_eq!(r, Err(ProgramError::CapacityExceeded));
    let r = post_message(&mut ledger, &accounts, MessageParams::Append, "x".repeat(1980));
    assert_eq!(r, Ok(()));
}

#[test]
fn profile_body_limit() {
    let mut ledger = started();
    let user = key(75);
    add_profile(&mut ledger, user).unwrap();
    let accounts = UpdateProfile { authority: user, profile: profile_addr(user) };
    let r = update_profile(&mut ledger, &accounts, vec![ProfileParams::Picture { data: "p".repeat(2037) }]);
    assert_eq!(r, Err(ProgramError::CapacityExceeded));
    assert_eq!(profile_of(&ledger, user).1, "");
    let r = update_profile(&mut ledger, &accounts, vec![ProfileParams::Picture { data: "p".repeat(2036) }]);
    assert_eq!(r, Ok(()));
    let r = update_profile(&mut ledger, &accounts, vec![ProfileParams::Content { data: appends(1) }]);
    assert_eq!(r, Err(ProgramError::CapacityExceeded));
    let r = update_profile(&mut ledger, &accounts, vec![
        ProfileParams::Picture { data: "p".repeat(2025) },
        ProfileParams::Content { data: vec![Method::Append { content: content("a", "bc") }] },
    ]);
    assert_eq!(r, Ok(()));
    let p = profile_of(&ledger, user);
    assert_eq!(p.1.len(), 2025);
    assert_eq!(p.2, vec![("a".to_string(), "bc".to_string())]);
    let r = update_profile(&mut ledger, &accounts, vec![ProfileParams::Social { data: vec![Method::Append { content: content("", "") }] }]);
    assert_eq!(r, Err(ProgramError::CapacityExceeded));
    assert_eq!(profile_of(&ledger, user), p);
}

#[test]
fn notification_log_holds_nineteen() {
    let mut ledger = started();
    let b = key(150);
    add_profile(&mut ledger, b).unwrap();
    for n in 0..20u8 {
        let s = key(100 + n);
        initialize_message_header(&mut ledger, &InitializeMessageHeader { sender: s, recipient: b, new_message_header: conversation_addr(s, b) }).unwrap();
        let accounts = message_accounts(&ledger, s, b);
        let r = post_message(&mut ledger, &accounts, MessageParams::Append, "hi".to_string());
        if n < 19 {
            assert_eq!(r, Ok(()));
        } else {
            assert_eq!(r, Err(ProgramError::CapacityExceeded));
        }
    }
    assert_eq!(notifications(&ledger, b).1.len(), 19);
}
