use vstd::prelude::*;
use crate::records::{Content, MAX_LIST_ENTRIES, LENGTH_PREFIX_BYTES, PROFILE_BODY_SPACE};
use crate::validation::{byte_len, text_bytes};
use crate::ledger::ProgramError;

verus! {

/// One edit of a profile's content or social-link list.
pub enum Method {
    /// Adds an entry at the end.
    Append { content: Content },
    /// Replaces the entry at `index`, but only where that entry has the same
    /// field name; otherwise the list is left as it is.
    Update { index: usize, content: Content },
    /// Removes the entry at `index`; the last entry takes its place.
    Delete { index: usize },
}

/// One change of a profile.
pub enum ProfileParams {
    Content { data: Vec<Method> },
    Social { data: Vec<Method> },
    Picture { data: String },
}

/// The editable part of a profile: picture url, content list, social-link list.
pub type ProfileBody = (String, Seq<Content>, Seq<Content>);

pub open spec fn apply_method(list: Seq<Content>, m: Method) -> Result<Seq<Content>, ProgramError> {
    match m {
        Method::Append { content } => if list.len() < MAX_LIST_ENTRIES {
            Ok(list.push(content))
        } else {
            Err(ProgramError::CapacityExceeded)
        },
        Method::Update { index, content } => if index < list.len() {
            if list[index as int].field@ == content.field@ {
                Ok(list.update(index as int, content))
            } else {
                Ok(list)
            }
        } else {
            Err(ProgramError::IndexOutOfBounds)
        },
        Method::Delete { index } => if index < list.len() {
            Ok(list.update(index as int, list.last()).drop_last())
        } else {
            Err(ProgramError::IndexOutOfBounds)
        },
    }
}

/// The list after a batch of edits applied in order, or the first edit's error.
pub open spec fn apply_methods(list: Seq<Content>, ms: Seq<Method>) -> Result<Seq<Content>, ProgramError>
    decreases ms.len(),
{
    if ms.len() == 0 {
        Ok(list)
    } else {
        match apply_method(list, ms[0]) {
            Ok(next) => apply_methods(next, ms.drop_first()),
            Err(e) => Err(e),
        }
    }
}

pub open spec fn apply_param(body: ProfileBody, p: ProfileParams) -> Result<ProfileBody, ProgramError> {
    match p {
        ProfileParams::Picture { data } => Ok((data, body.1, body.2)),
        ProfileParams::Content { data } => match apply_methods(body.1, data@) {
            Ok(l) => Ok((body.0, l, body.2)),
            Err(e) => Err(e),
        },
        ProfileParams::Social { data } => match apply_methods(body.2, data@) {
            Ok(l) => Ok((body.0, body.1, l)),
            Err(e) => Err(e),
        },
    }
}

/// The profile body after a batch of changes applied in order, or the first
/// change's error.
pub open spec fn apply_params(body: ProfileBody, ps: Seq<ProfileParams>) -> Result<ProfileBody, ProgramError>
    decreases ps.len(),
{
    if ps.len() == 0 {
        Ok(body)
    } else {
        match apply_param(body, ps[0]) {
            Ok(next) => apply_params(next, ps.drop_first()),
            Err(e) => Err(e),
        }
    }
}

/// Whether a batch of edits succeeds depends on the list's length alone: the
/// length after each edit, or the first error.
pub open spec fn method_fit(len: nat, m: Method) -> Result<nat, ProgramError> {
    match m {
        Method::Append { .. } => if len < MAX_LIST_ENTRIES {
            Ok(len + 1)
        } else {
            Err(ProgramError::CapacityExceeded)
        },
        Method::Update { index, .. } => if index < len {
            Ok(len)
        } else {
            Err(ProgramError::IndexOutOfBounds)
        },
        Method::Delete { index } => if index < len {
            Ok((len - 1) as nat)
        } else {
            Err(ProgramError::IndexOutOfBounds)
        },
    }
}

pub open spec fn methods_fit(len: nat, ms: Seq<Method>) -> Result<nat, ProgramError>
    decreases ms.len(),
{
    if ms.len() == 0 {
        Ok(len)
    } else {
        match method_fit(len, ms[0]) {
            Ok(next) => methods_fit(next, ms.drop_first()),
            Err(e) => Err(e),
        }
    }
}

pub open spec fn param_fit(lens: (nat, nat), p: ProfileParams) -> Result<(nat, nat), ProgramError> {
    match p {
        ProfileParams::Picture { .. } => Ok(lens),
        ProfileParams::Content { data } => match methods_fit(lens.0, data@) {
            Ok(n) => Ok((n, lens.1)),
            Err(e) => Err(e),
        },
        ProfileParams::Social { data } => match methods_fit(lens.1, data@) {
            Ok(n) => Ok((lens.0, n)),
            Err(e) => Err(e),
        },
    }
}

pub open spec fn params_fit(lens: (nat, nat), ps: Seq<ProfileParams>) -> Result<(nat, nat), ProgramError>
    decreases ps.len(),
{
    if ps.len() == 0 {
        Ok(lens)
    } else {
        match param_fit(lens, ps[0]) {
            Ok(next) => params_fit(next, ps.drop_first()),
            Err(e) => Err(e),
        }
    }
}

proof fn lemma_methods_fit(list: Seq<Content>, ms: Seq<Method>)
    requires
        list.len() <= MAX_LIST_ENTRIES,
    ensures
        match (apply_methods(list, ms), methods_fit(list.len(), ms)) {
            (Ok(l), Ok(n)) => l.len() == n && n <= MAX_LIST_ENTRIES,
            (Err(a), Err(b)) => a == b,
            _ => false,
        },
    decreases ms.len(),
{
    if ms.len() > 0 {
        match apply_method(list, ms[0]) {
            Ok(next) => lemma_methods_fit(next, ms.drop_first()),
            Err(_) => {},
        }
    }
}

pub(crate) proof fn lemma_params_fit(body: ProfileBody, ps: Seq<ProfileParams>)
    requires
        body.1.len() <= MAX_LIST_ENTRIES,
        body.2.len() <= MAX_LIST_ENTRIES,
    ensures
        match (apply_params(body, ps), params_fit((body.1.len(), body.2.len()), ps)) {
            (Ok(b), Ok(n)) => b.1.len() == n.0 && b.2.len() == n.1 && n.0 <= MAX_LIST_ENTRIES && n.1
                <= MAX_LIST_ENTRIES,
            (Err(a), Err(b)) => a == b,
            _ => false,
        },
    decreases ps.len(),
{
    if ps.len() > 0 {
        match ps[0] {
            ProfileParams::Content { data } => lemma_methods_fit(body.1, data@),
            ProfileParams::Social { data } => lemma_methods_fit(body.2, data@),
            ProfileParams::Picture { .. } => {},
        }
        match apply_param(body, ps[0]) {
            Ok(next) => lemma_params_fit(next, ps.drop_first()),
            Err(_) => {},
        }
    }
}

fn check_method(len: usize, m: &Method) -> (r: Result<usize, ProgramError>)
    requires
        len <= MAX_LIST_ENTRIES,
    ensures
        match method_fit(len as nat, *m) {
            Ok(n) => r == Ok::<usize, ProgramError>(n as usize) && n <= MAX_LIST_ENTRIES,
            Err(e) => r == Err::<usize, ProgramError>(e),
        },
{
    match m {
        Method::Append { .. } => if len < MAX_LIST_ENTRIES {
            Ok(len + 1)
        } else {
            Err(ProgramError::CapacityExceeded)
        },
        Method::Update { index, .. } => if *index < len {
            Ok(len)
        } else {
            Err(ProgramError::IndexOutOfBounds)
        },
        Method::Delete { index } => if *index < len {
            Ok(len - 1)
        } else {
            Err(ProgramError::IndexOutOfBounds)
        },
    }
}

fn check_methods(len: usize, ms: &Vec<Method>) -> (r: Result<usize, ProgramError>)
    requires
        len <= MAX_LIST_ENTRIES,
    ensures
        match methods_fit(len as nat, ms@) {
            Ok(n) => r == Ok::<usize, ProgramError>(n as usize) && n <= MAX_LIST_ENTRIES,
            Err(e) => r == Err::<usize, ProgramError>(e),
        },
{
    let mut cur: usize = len;
    let mut i: usize = 0;
    assert(ms@.subrange(0, ms@.len() as int) =~= ms@);
    while i < ms.len()
        invariant
            i <= ms@.len(),
            cur <= MAX_LIST_ENTRIES,
            methods_fit(len as nat, ms@) == methods_fit(cur as nat, ms@.subrange(i as int, ms@.len() as int)),
        decreases ms@.len() - i,
    {
        assert(ms@.subrange(i as int, ms@.len() as int).drop_first() =~= ms@.subrange(i + 1, ms@.len() as int));
        match check_method(cur, &ms[i]) {
            Ok(n) => {
                cur = n;
            },
            Err(e) => {
                return Err(e);
            },
        }
        i = i + 1;
    }
    assert(ms@.subrange(i as int, ms@.len() as int).len() == 0);
    Ok(cur)
}

/// An update whose field name differs from the entry's at `index` succeeds
/// and leaves the list as it was.
pub proof fn lemma_update_with_other_field_is_noop(list: Seq<Content>, index: usize, content: Content)
    requires
        index < list.len(),
        list[index as int].field@ != content.field@,
    ensures
        apply_method(list, Method::Update { index, content }) == Ok::<Seq<Content>, ProgramError>(list),
{
}

/// A delete removes the entry at `index` and moves the former last entry into
/// its place; every other entry keeps its position.
pub proof fn lemma_delete_swaps_last(list: Seq<Content>, index: usize)
    requires
        index < list.len(),
    ensures
        apply_method(list, Method::Delete { index }) is Ok,
        apply_method(list, Method::Delete { index })->Ok_0.len() == list.len() - 1,
        index < list.len() - 1 ==> apply_method(list, Method::Delete { index })->Ok_0[index as int]
            == list.last(),
        forall|j: int|
            0 <= j < list.len() - 1 && j != index ==> apply_method(list, Method::Delete { index })->Ok_0[j]
                == list[j],
{
}

/// An append to a full list fails with a capacity error.
pub proof fn lemma_append_to_full_list_fails(list: Seq<Content>, content: Content)
    requires
        list.len() >= MAX_LIST_ENTRIES,
    ensures
        apply_method(list, Method::Append { content }) == Err::<Seq<Content>, ProgramError>(
            ProgramError::CapacityExceeded,
        ),
{
}

/// Whether a batch of changes can be applied to a profile whose lists have
/// the given lengths; the first change that cannot be applied gives the error.
pub(crate) fn check_params(content_len: usize, social_len: usize, ps: &Vec<ProfileParams>) -> (r: Result<(), ProgramError>)
    requires
        content_len <= MAX_LIST_ENTRIES,
        social_len <= MAX_LIST_ENTRIES,
    ensures
        match params_fit((content_len as nat, social_len as nat), ps@) {
            Ok(_) => r is Ok,
            Err(e) => r == Err::<(), ProgramError>(e),
        },
{
    let mut c: usize = content_len;
    let mut s: usize = social_len;
    let mut i: usize = 0;
    assert(ps@.subrange(0, ps@.len() as int) =~= ps@);
    while i < ps.len()
        invariant
            i <= ps@.len(),
            c <= MAX_LIST_ENTRIES,
            s <= MAX_LIST_ENTRIES,
            params_fit((content_len as nat, social_len as nat), ps@) == params_fit(
                (c as nat, s as nat),
                ps@.subrange(i as int, ps@.len() as int),
            ),
        decreases ps@.len() - i,
    {
        assert(ps@.subrange(i as int, ps@.len() as int).drop_first() =~= ps@.subrange(i + 1, ps@.len() as int));
        match &ps[i] {
            ProfileParams::Content { data } => match check_methods(c, data) {
                Ok(n) => {
                    c = n;
                },
                Err(e) => {
                    return Err(e);
                },
            },
            ProfileParams::Social { data } => match check_methods(s, data) {
                Ok(n) => {
                    s = n;
                },
                Err(e) => {
                    return Err(e);
                },
            },
            ProfileParams::Picture { .. } => {},
        }
        i = i + 1;
    }
    Ok(())
}

/// Applies a batch of edits to a list, in order.
pub(crate) fn apply_methods_to(list: &mut Vec<Content>, ms: Vec<Method>)
    requires
        apply_methods(old(list)@, ms@) is Ok,
    ensures
        Ok::<Seq<Content>, ProgramError>(final(list)@) == apply_methods(old(list)@, ms@),
{
    let ghost all = ms@;
    let mut ms = ms;
    while ms.len() > 0
        invariant
            apply_methods(list@, ms@) == apply_methods(old(list)@, all),
            apply_methods(list@, ms@) is Ok,
        decreases ms@.len(),
    {
        let ghost before = ms@;
        let m = ms.remove(0);
        assert(ms@ =~= before.drop_first());
        match m {
            Method::Append { content } => {
                list.push(content);
            },
            Method::Update { index, content } => {
                if list[index].field == content.field {
                    list.set(index, content);
                }
            },
            Method::Delete { index } => {
                list.swap_remove(index);
            },
        }
    }
}

/// The stored size of one list entry: its field name and its text, each
/// after a length prefix.
pub open spec fn entry_bytes(c: Content) -> int {
    2 * LENGTH_PREFIX_BYTES + byte_len(c.field@) + byte_len(c.data@)
}

/// The stored size of a list's entries, without the list's own prefix.
pub open spec fn entries_bytes(s: Seq<Content>) -> int
    decreases s.len(),
{
    if s.len() == 0 {
        0
    } else {
        entries_bytes(s.drop_last()) + entry_bytes(s.last())
    }
}

/// The stored size of a profile body: the picture url and the two lists,
/// each after a length prefix.
pub open spec fn body_bytes(body: ProfileBody) -> int {
    3 * LENGTH_PREFIX_BYTES + byte_len(body.0@) + entries_bytes(body.1) + entries_bytes(body.2)
}

proof fn lemma_entries_prefix(s: Seq<Content>, i: int)
    requires
        0 <= i <= s.len(),
    ensures
        0 <= entries_bytes(s.subrange(0, i)) <= entries_bytes(s),
    decreases s.len(),
{
    if i == s.len() {
        assert(s.subrange(0, i) =~= s);
    } else {
        assert(s.drop_last().subrange(0, i) =~= s.subrange(0, i));
        lemma_entries_prefix(s.drop_last(), i);
    }
    if s.len() > 0 {
        lemma_entries_prefix(s.drop_last(), 0);
    }
}

fn add_within(total: usize, x: usize) -> (r: Option<usize>)
    requires
        total <= PROFILE_BODY_SPACE,
    ensures
        match r {
            Some(t) => t == total + x && t <= PROFILE_BODY_SPACE,
            None => total + x > PROFILE_BODY_SPACE,
        },
{
    if x <= PROFILE_BODY_SPACE - total {
        Some(total + x)
    } else {
        None
    }
}

fn entries_within(total: usize, list: &Vec<Content>) -> (r: Option<usize>)
    requires
        total <= PROFILE_BODY_SPACE,
    ensures
        match r {
            Some(t) => t == total + entries_bytes(list@) && t <= PROFILE_BODY_SPACE,
            None => total + entries_bytes(list@) > PROFILE_BODY_SPACE,
        },
{
    let mut cur: usize = total;
    let mut i: usize = 0;
    assert(list@.subrange(0, 0).len() == 0);
    while i < list.len()
        invariant
            i <= list@.len(),
            cur <= PROFILE_BODY_SPACE,
            cur == total + entries_bytes(list@.subrange(0, i as int)),
        decreases list@.len() - i,
    {
        let c = &list[i];
        assert(list@.subrange(0, i + 1).drop_last() =~= list@.subrange(0, i as int));
        let step = match add_within(cur, 2 * LENGTH_PREFIX_BYTES) {
            Some(t) => match add_within(t, text_bytes(&c.field)) {
                Some(t) => add_within(t, text_bytes(&c.data)),
                None => None,
            },
            None => None,
        };
        match step {
            Some(t) => {
                cur = t;
            },
            None => {
                proof {
                    lemma_entries_prefix(list@, i + 1);
                }
                return None;
            },
        }
        i = i + 1;
    }
    assert(list@.subrange(0, list@.len() as int) =~= list@);
    Some(cur)
}

/// Whether a profile body fits the profile's reserved space.
pub fn body_fits(picture_url: &String, content: &Vec<Content>, social_media: &Vec<Content>) -> (r: bool)
    ensures
        r == (body_bytes((*picture_url, content@, social_media@)) <= PROFILE_BODY_SPACE),
{
    proof {
        lemma_entries_prefix(content@, 0);
        lemma_entries_prefix(social_media@, 0);
        assert(content@.subrange(0, 0) =~= Seq::<Content>::empty());
        assert(social_media@.subrange(0, 0) =~= Seq::<Content>::empty());
    }
    let t = match add_within(3 * LENGTH_PREFIX_BYTES, text_bytes(picture_url)) {
        Some(t) => t,
        None => {
            return false;
        },
    };
    let t = match entries_within(t, content) {
        Some(t) => t,
        None => {
            return false;
        },
    };
    match entries_within(t, social_media) {
        Some(_) => true,
        None => false,
    }
}

/// A copy of a list of entries.
pub fn copy_entries(list: &Vec<Content>) -> (r: Vec<Content>)
    ensures
        r@ == list@,
{
    let mut r: Vec<Content> = Vec::new();
    let mut i: usize = 0;
    while i < list.len()
        invariant
            i <= list@.len(),
            r@ =~= list@.subrange(0, i as int),
        decreases list@.len() - i,
    {
        let c = &list[i];
        r.push(Content { field: c.field.clone(), data: c.data.clone() });
        i = i + 1;
    }
    r
}

} // verus!
