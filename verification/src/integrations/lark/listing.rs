//! Paged member, user and chat listings: what each page may contain, what
//! the complete listing is, and how a search is reconciled to one record.
use vstd::prelude::*;

use crate::integrations::lark::error::invalid;
use crate::integrations::lark::error::LarkCliError;
use crate::integrations::lark::identity::OpenId;
use crate::integrations::lark::paging::PageFault;
use crate::integrations::lark::types::ChatCreateRequest;
use crate::integrations::lark::types::ChatMatch;
use crate::integrations::lark::types::ChatMember;
use crate::integrations::lark::types::ChatMemberAddResult;
use crate::integrations::lark::types::ChatMemberMatch;
use crate::integrations::lark::types::ChatMembers;
use crate::integrations::lark::types::ChatRecord;
use crate::integrations::lark::types::ChatSearchRequest;
use crate::integrations::lark::types::ContentSensitivity;
use crate::integrations::lark::types::UserMatch;
use crate::integrations::lark::types::UserRecord;
use crate::integrations::lark::types::UserSearchRequest;
use crate::text::chars_of;
use crate::text::is_blank;
use crate::text::owned;
use crate::text::spec_blank;
use crate::text::str_eq;

verus! {

/// Members added per request at most.
pub const MAX_MEMBER_BATCH: usize = 50;

fn response_error(message: &str) -> (e: LarkCliError)
    ensures
        e matches LarkCliError::InvalidResponse { message: m } && m@ == message@,
{
    LarkCliError::InvalidResponse { message: owned(message) }
}

pub open spec fn spec_invalid_request(e: LarkCliError, message: Seq<char>) -> bool {
    e matches LarkCliError::InvalidRequest { message: m } && m@ == message
}

pub open spec fn spec_response_error(e: LarkCliError, message: Seq<char>) -> bool {
    e matches LarkCliError::InvalidResponse { message: m } && m@ == message
}

/// The paging fault of a listing named `what`, as its error.
pub open spec fn spec_page_fault_message(what: Seq<char>, f: PageFault) -> Seq<char> {
    match f {
        PageFault::MissingToken => what + " page omitted its continuation token"@,
        PageFault::Looped => what + " pagination looped"@,
        PageFault::LimitExceeded => what + " exceeded its page limit"@,
    }
}

/// The error of a paging fault; chat members say "pagination exceeded".
pub fn page_fault_error(what: &str, f: PageFault) -> (e: LarkCliError)
    ensures
        spec_response_error(e, spec_page_fault_message(what@, f)),
{
    let mut m = owned(what);
    match f {
        PageFault::MissingToken => crate::text::push_str(&mut m, " page omitted its continuation token"),
        PageFault::Looped => crate::text::push_str(&mut m, " pagination looped"),
        PageFault::LimitExceeded => crate::text::push_str(&mut m, " exceeded its page limit"),
    }
    LarkCliError::InvalidResponse { message: m }
}

// ---------------------------------------------------------------- members

pub open spec fn spec_member_known(known: Seq<ChatMember>, id: Seq<char>) -> bool {
    exists|j: int| 0 <= j < known.len() && (#[trigger] known[j]).member_id@ == id
}

/// Adds a page of members in order: each must be an open id not seen before
/// (`Err(0)`: another id type, `Err(1)`: a duplicate).
pub open spec fn spec_accept_members(known: Seq<ChatMember>, items: Seq<ChatMember>, i: int) -> Result<
    Seq<ChatMember>,
    int,
>
    decreases items.len() - i,
{
    if i < 0 || i >= items.len() {
        Ok(known)
    } else if items[i].member_id_type@ != "open_id"@ {
        Err(0)
    } else if spec_member_known(known, items[i].member_id@) {
        Err(1)
    } else {
        spec_accept_members(known.push(items[i]), items, i + 1)
    }
}

/// Adds one page of chat members to those already listed.
#[verifier::loop_isolation(false)]
pub fn accept_members(members: &mut Vec<ChatMember>, items: Vec<ChatMember>) -> (r: Result<(), LarkCliError>)
    ensures
        match spec_accept_members(old(members)@, items@, 0) {
            Ok(all) => r is Ok && final(members)@ == all,
            Err(k) => r is Err && if k == 0 {
                spec_response_error(r->Err_0, "chat member response used another ID type"@)
            } else {
                spec_response_error(r->Err_0, "chat member pagination returned a duplicate"@)
            },
        },
{
    proof {
        reveal_strlit("open_id");
    }
    let ghost all_items = items@;
    let n = items.len();
    let mut rest = items;
    let mut i: usize = 0;
    while rest.len() > 0
        invariant
            i <= all_items.len(),
            all_items == items@,
            rest@ == all_items.skip(i as int),
            rest@.len() + i == all_items.len(),
            n == all_items.len(),
            spec_accept_members(old(members)@, all_items, 0) == spec_accept_members(members@, all_items, i as int),
        decreases rest.len(),
    {
        let m = rest.remove(0);
        assert(m == all_items[i as int]);
        if !str_eq(m.member_id_type.as_str(), "open_id") {
            return Err(response_error("chat member response used another ID type"));
        }
        let mut j: usize = 0;
        while j < members.len()
            invariant
                j <= members.len(),
                forall|x: int| 0 <= x < j ==> (#[trigger] members@[x]).member_id@ != m.member_id@,
            decreases members.len() - j,
        {
            if str_eq(members[j].member_id.as_str(), m.member_id.as_str()) {
                assert(spec_member_known(members@, m.member_id@));
                return Err(response_error("chat member pagination returned a duplicate"));
            }
            j += 1;
        }
        members.push(m);
        i += 1;
        assert(rest@ == all_items.skip(i as int));
    }
    Ok(())
}

/// The last page came: the listing is complete only if it has the announced total.
pub fn finish_members(members: Vec<ChatMember>, member_total: u64) -> (r: Result<ChatMembers, LarkCliError>)
    ensures
        members@.len() == member_total ==> r is Ok && r->Ok_0.members@ == members@ && r->Ok_0.member_total
            == member_total,
        members@.len() != member_total ==> r is Err && spec_response_error(
            r->Err_0,
            "chat member pagination was incomplete"@,
        ),
{
    if members.len() as u64 != member_total {
        return Err(response_error("chat member pagination was incomplete"));
    }
    Ok(ChatMembers { members, member_total })
}

/// A member batch has 1 to 50 ids.
pub fn check_member_batch(count: usize) -> (r: Result<(), LarkCliError>)
    ensures
        r is Ok <==> 1 <= count <= MAX_MEMBER_BATCH,
        r is Err ==> spec_invalid_request(r->Err_0, "chat member add requires between 1 and 50 IDs"@),
{
    if count == 0 || count > MAX_MEMBER_BATCH {
        return Err(invalid("chat member add requires between 1 and 50 IDs"));
    }
    Ok(())
}

/// An add is all or nothing: any refused, unknown or pending id leaves it ambiguous.
pub fn check_add_result(result: ChatMemberAddResult) -> (r: Result<ChatMemberAddResult, LarkCliError>)
    ensures
        (result.invalid_id_list@.len() == 0 && result.not_existed_id_list@.len() == 0
            && result.pending_approval_id_list@.len() == 0) ==> r == Ok::<ChatMemberAddResult, LarkCliError>(result),
        !(result.invalid_id_list@.len() == 0 && result.not_existed_id_list@.len() == 0
            && result.pending_approval_id_list@.len() == 0) ==> r == Err::<ChatMemberAddResult, LarkCliError>(
            LarkCliError::AmbiguousMutation,
        ),
{
    if result.invalid_id_list.len() > 0 || result.not_existed_id_list.len() > 0
        || result.pending_approval_id_list.len() > 0 {
        return Err(LarkCliError::AmbiguousMutation);
    }
    Ok(result)
}

/// The expected members not present, in the expected order.
pub open spec fn spec_missing(expected: Seq<OpenId>, present: Seq<ChatMember>) -> Seq<OpenId>
    decreases expected.len(),
{
    if expected.len() == 0 {
        Seq::empty()
    } else if spec_member_known(present, expected.last()@) {
        spec_missing(expected.drop_last(), present)
    } else {
        spec_missing(expected.drop_last(), present).push(expected.last())
    }
}

/// Compares the expected members with the complete current listing.
pub fn reconcile_members(expected: Vec<OpenId>, present: &Vec<ChatMember>) -> (r: Result<ChatMemberMatch, LarkCliError>)
    ensures
        expected@.len() == 0 ==> r is Err && spec_invalid_request(r->Err_0, "member reconciliation requires expected IDs"@),
        expected@.len() > 0 ==> if spec_missing(expected@, present@).len() == 0 {
            r == Ok::<ChatMemberMatch, LarkCliError>(ChatMemberMatch::Complete)
        } else {
            r is Ok && r->Ok_0 is Incomplete && r->Ok_0->Incomplete_0@ == spec_missing(expected@, present@)
        },
{
    if expected.len() == 0 {
        return Err(invalid("member reconciliation requires expected IDs"));
    }
    let ghost all = expected@;
    let n = expected.len();
    let mut rest = expected;
    let mut missing: Vec<OpenId> = Vec::new();
    let mut i: usize = 0;
    while rest.len() > 0
        invariant
            i <= n == all.len(),
            rest@ == all.skip(i as int),
            rest@.len() + i == n,
            missing@ == spec_missing(all.take(i as int), present@),
        decreases rest.len(),
    {
        let id = rest.remove(0);
        assert(id == all[i as int]);
        assert(all.take(i + 1).drop_last() == all.take(i as int));
        let mut j: usize = 0;
        let mut found = false;
        while j < present.len()
            invariant
                j <= present.len(),
                found <==> exists|x: int| 0 <= x < j && (#[trigger] present@[x]).member_id@ == id@,
            decreases present.len() - j,
        {
            if str_eq(present[j].member_id.as_str(), id.as_str()) {
                found = true;
            }
            j += 1;
        }
        if !found {
            missing.push(id);
        }
        i += 1;
        assert(rest@ == all.skip(i as int));
    }
    assert(all.take(n as int) == all);
    if missing.len() == 0 {
        Ok(ChatMemberMatch::Complete)
    } else {
        Ok(ChatMemberMatch::Incomplete(missing))
    }
}

// ---------------------------------------------------------------- users

/// A user search needs a non-blank query and a page size from 1 to 100.
pub fn validate_user_search(request: &UserSearchRequest) -> (r: Result<(), LarkCliError>)
    ensures
        r is Ok <==> !spec_blank(request.query@) && 1 <= request.page_size <= 100,
        r is Err ==> spec_invalid_request(r->Err_0, "user search query or page size is invalid"@),
{
    if is_blank(request.query.as_str()) || request.page_size < 1 || request.page_size > 100 {
        return Err(invalid("user search query or page size is invalid"));
    }
    Ok(())
}

pub open spec fn spec_user_known(known: Seq<UserRecord>, id: Seq<char>) -> bool {
    exists|j: int| 0 <= j < known.len() && (#[trigger] known[j]).open_id@ == id
}

/// Adds a page of users, dropping those already listed.
pub open spec fn spec_accept_users(known: Seq<UserRecord>, items: Seq<UserRecord>) -> Seq<UserRecord>
    decreases items.len(),
{
    if items.len() == 0 {
        known
    } else {
        let k = spec_accept_users(known, items.drop_last());
        if spec_user_known(k, items.last().open_id@) {
            k
        } else {
            k.push(items.last())
        }
    }
}

#[verifier::loop_isolation(false)]
pub fn accept_users(users: &mut Vec<UserRecord>, items: Vec<UserRecord>)
    ensures
        final(users)@ == spec_accept_users(old(users)@, items@),
{
    let ghost all = items@;
    let n = items.len();
    let mut rest = items;
    let mut i: usize = 0;
    while rest.len() > 0
        invariant
            i <= n == all.len(),
            all == items@,
            rest@ == all.skip(i as int),
            rest@.len() + i == n,
            users@ == spec_accept_users(old(users)@, all.take(i as int)),
        decreases rest.len(),
    {
        let u = rest.remove(0);
        assert(u == all[i as int]);
        assert(all.take(i + 1).drop_last() == all.take(i as int));
        let mut j: usize = 0;
        let mut found = false;
        while j < users.len()
            invariant
                j <= users.len(),
                found <==> exists|x: int| 0 <= x < j && (#[trigger] users@[x]).open_id@ == u.open_id@,
            decreases users.len() - j,
        {
            if str_eq(users[j].open_id.as_str(), u.open_id.as_str()) {
                found = true;
            }
            j += 1;
        }
        if !found {
            users.push(u);
        }
        i += 1;
        assert(rest@ == all.skip(i as int));
    }
    assert(all.take(n as int) == all);
}

/// The claim resolves to no user, exactly one, or several.
pub fn user_match(users: Vec<UserRecord>) -> (r: UserMatch)
    ensures
        users@.len() == 0 ==> r == UserMatch::Missing,
        users@.len() == 1 ==> r == UserMatch::Found(users@[0]),
        users@.len() > 1 ==> r == UserMatch::Ambiguous(users),
{
    if users.len() == 0 {
        UserMatch::Missing
    } else if users.len() == 1 {
        let mut users = users;
        let u = users.remove(0);
        UserMatch::Found(u)
    } else {
        UserMatch::Ambiguous(users)
    }
}

// ---------------------------------------------------------------- chats

pub open spec fn spec_search_needs_subject(request: ChatSearchRequest) -> bool {
    (match request.query {
        Some(q) => q@.len() == 0,
        None => true,
    }) && request.member_ids@.len() == 0
}

/// A chat search needs a query or member ids, and a page size from 1 to 100.
pub fn validate_chat_search(request: &ChatSearchRequest) -> (r: Result<(), LarkCliError>)
    ensures
        spec_search_needs_subject(*request) ==> r is Err && spec_invalid_request(r->Err_0, "chat search needs a query or member IDs"@),
        !spec_search_needs_subject(*request) && !(1 <= request.page_size <= 100) ==> r is Err
            && spec_invalid_request(r->Err_0, "chat page size must be between 1 and 100"@),
        r is Ok <==> !spec_search_needs_subject(*request) && 1 <= request.page_size <= 100,
{
    let empty_query = match &request.query {
        Some(q) => chars_of(q.as_str()).len() == 0,
        None => true,
    };
    if empty_query && request.member_ids.len() == 0 {
        return Err(invalid("chat search needs a query or member IDs"));
    }
    if request.page_size < 1 || request.page_size > 100 {
        return Err(invalid("chat page size must be between 1 and 100"));
    }
    Ok(())
}

pub open spec fn spec_chat_known(known: Seq<ChatRecord>, id: Seq<char>) -> bool {
    exists|j: int| 0 <= j < known.len() && (#[trigger] known[j]).chat_id@ == id
}

/// Adds a page of chats; a chat seen before is an error.
pub open spec fn spec_accept_chats(known: Seq<ChatRecord>, items: Seq<ChatRecord>, i: int) -> Option<Seq<ChatRecord>>
    decreases items.len() - i,
{
    if i < 0 || i >= items.len() {
        Some(known)
    } else if spec_chat_known(known, items[i].chat_id@) {
        None
    } else {
        spec_accept_chats(known.push(items[i]), items, i + 1)
    }
}

#[verifier::loop_isolation(false)]
pub fn accept_chats(chats: &mut Vec<ChatRecord>, items: Vec<ChatRecord>) -> (r: Result<(), LarkCliError>)
    ensures
        match spec_accept_chats(old(chats)@, items@, 0) {
            Some(all) => r is Ok && final(chats)@ == all,
            None => r is Err && spec_response_error(r->Err_0, "chat search pagination returned a duplicate"@),
        },
{
    let ghost all = items@;
    let n = items.len();
    let mut rest = items;
    let mut i: usize = 0;
    while rest.len() > 0
        invariant
            i <= n == all.len(),
            all == items@,
            rest@ == all.skip(i as int),
            rest@.len() + i == n,
            spec_accept_chats(old(chats)@, all, 0) == spec_accept_chats(chats@, all, i as int),
        decreases rest.len(),
    {
        let c = rest.remove(0);
        assert(c == all[i as int]);
        let mut j: usize = 0;
        while j < chats.len()
            invariant
                j <= chats.len(),
                forall|x: int| 0 <= x < j ==> (#[trigger] chats@[x]).chat_id@ != c.chat_id@,
            decreases chats.len() - j,
        {
            if str_eq(chats[j].chat_id.as_str(), c.chat_id.as_str()) {
                assert(spec_chat_known(chats@, c.chat_id@));
                return Err(response_error("chat search pagination returned a duplicate"));
            }
            j += 1;
        }
        chats.push(c);
        i += 1;
        assert(rest@ == all.skip(i as int));
    }
    Ok(())
}

/// No chat, exactly one, or several.
pub fn chat_match(chats: Vec<ChatRecord>) -> (r: ChatMatch)
    ensures
        chats@.len() == 0 ==> r == ChatMatch::Missing,
        chats@.len() == 1 ==> r == ChatMatch::Found(chats@[0]),
        chats@.len() > 1 ==> r == ChatMatch::Ambiguous(chats),
{
    if chats.len() == 0 {
        ChatMatch::Missing
    } else if chats.len() == 1 {
        let mut chats = chats;
        let c = chats.remove(0);
        ChatMatch::Found(c)
    } else {
        ChatMatch::Ambiguous(chats)
    }
}

/// Keeps, in order, the chats for which `keep` holds.
pub open spec fn spec_keep(chats: Seq<ChatRecord>, keep: spec_fn(ChatRecord) -> bool) -> Seq<ChatRecord>
    decreases chats.len(),
{
    if chats.len() == 0 {
        Seq::empty()
    } else if keep(chats.last()) {
        spec_keep(chats.drop_last(), keep).push(chats.last())
    } else {
        spec_keep(chats.drop_last(), keep)
    }
}

/// A live chat with exactly the expected name.
pub open spec fn spec_named_chat(expected_name: Seq<char>) -> spec_fn(ChatRecord) -> bool {
    |c: ChatRecord| c.name@ == expected_name && c.chat_status@ != "dissolved"@
}

/// Reconciles a search to the live chats with the expected name.
#[verifier::loop_isolation(false)]
pub fn reconcile_chat(chats: Vec<ChatRecord>, expected_name: &str) -> (r: ChatMatch)
    ensures
        ({
            let kept = spec_keep(chats@, spec_named_chat(expected_name@));
            &&& kept.len() == 0 ==> r == ChatMatch::Missing
            &&& kept.len() == 1 ==> r == ChatMatch::Found(kept[0])
            &&& kept.len() > 1 ==> r is Ambiguous && r->Ambiguous_0@ == kept
        }),
{
    proof {
        reveal_strlit("dissolved");
    }
    let ghost all = chats@;
    let ghost keep = spec_named_chat(expected_name@);
    let n = chats.len();
    let mut rest = chats;
    let mut out: Vec<ChatRecord> = Vec::new();
    let mut i: usize = 0;
    while rest.len() > 0
        invariant
            i <= n == all.len(),
            rest@ == all.skip(i as int),
            rest@.len() + i == n,
            out@ == spec_keep(all.take(i as int), keep),
        decreases rest.len(),
    {
        let c = rest.remove(0);
        assert(c == all[i as int]);
        assert(all.take(i + 1).drop_last() == all.take(i as int));
        if str_eq(c.name.as_str(), expected_name) && !str_eq(c.chat_status.as_str(), "dissolved") {
            out.push(c);
        }
        i += 1;
        assert(rest@ == all.skip(i as int));
    }
    assert(all.take(n as int) == all);
    chat_match(out)
}

/// A managed, internal, normal group with the expected name, marker and owner.
pub open spec fn spec_owned_chat(
    expected_name: Seq<char>,
    expected_description: Seq<char>,
    expected_owner: Option<Seq<char>>,
) -> spec_fn(ChatRecord) -> bool {
    |c: ChatRecord|
        c.name@ == expected_name && c.description@ == expected_description && !c.external
            && c.chat_status@ == "normal"@ && match expected_owner {
            Some(o) => c.owner_id@ == o,
            None => true,
        }
}

/// Reconciles a managed-only search to the one group carrying the ownership marker.
#[verifier::loop_isolation(false)]
pub fn reconcile_owned_chat(
    managed_only: bool,
    chats: Vec<ChatRecord>,
    expected_name: &str,
    expected_description: &str,
    expected_owner: Option<&OpenId>,
) -> (r: Result<ChatMatch, LarkCliError>)
    ensures
        !managed_only || spec_blank(expected_description@) ==> r is Err && spec_invalid_request(r->Err_0, "owned chat reconciliation requires managed-only search and a marker"@),
        managed_only && !spec_blank(expected_description@) ==> r is Ok && ({
            let m = r->Ok_0;
            let kept = spec_keep(
                chats@,
                spec_owned_chat(
                    expected_name@,
                    expected_description@,
                    match expected_owner {
                        Some(o) => Some(o@),
                        None => None,
                    },
                ),
            );
            &&& kept.len() == 0 ==> m == ChatMatch::Missing
            &&& kept.len() == 1 ==> m == ChatMatch::Found(kept[0])
            &&& kept.len() > 1 ==> m is Ambiguous && m->Ambiguous_0@ == kept
        }),
{
    if !managed_only || is_blank(expected_description) {
        return Err(invalid("owned chat reconciliation requires managed-only search and a marker"));
    }
    proof {
        reveal_strlit("normal");
    }
    let ghost all = chats@;
    let ghost keep = spec_owned_chat(
        expected_name@,
        expected_description@,
        match expected_owner {
            Some(o) => Some(o@),
            None => None,
        },
    );
    let n = chats.len();
    let mut rest = chats;
    let mut out: Vec<ChatRecord> = Vec::new();
    let mut i: usize = 0;
    while rest.len() > 0
        invariant
            i <= n == all.len(),
            rest@ == all.skip(i as int),
            rest@.len() + i == n,
            out@ == spec_keep(all.take(i as int), keep),
        decreases rest.len(),
    {
        let c = rest.remove(0);
        assert(c == all[i as int]);
        assert(all.take(i + 1).drop_last() == all.take(i as int));
        let owner_ok = match expected_owner {
            Some(o) => str_eq(c.owner_id.as_str(), o.as_str()),
            None => true,
        };
        if str_eq(c.name.as_str(), expected_name) && str_eq(c.description.as_str(), expected_description)
            && !c.external && str_eq(c.chat_status.as_str(), "normal") && owner_ok {
            out.push(c);
        }
        i += 1;
        assert(rest@ == all.skip(i as int));
    }
    assert(all.take(n as int) == all);
    Ok(chat_match(out))
}

/// A chat to create: argv-safe content, a name of 1 to 60 characters and a
/// description of at most 100.
pub fn validate_chat_create(request: &ChatCreateRequest) -> (r: Result<(), LarkCliError>)
    ensures
        request.sensitivity == ContentSensitivity::Sensitive ==> r == Err::<(), LarkCliError>(
            LarkCliError::SensitiveArgv,
        ),
        request.sensitivity != ContentSensitivity::Sensitive && (request.name@.len() == 0
            || request.name@.len() > 60) ==> r is Err && spec_invalid_request(r->Err_0, "chat name must contain 1 to 60 characters"@),
        request.sensitivity != ContentSensitivity::Sensitive && !(request.name@.len() == 0
            || request.name@.len() > 60) && (request.description matches Some(d) && d@.len() > 100)
            ==> r is Err && spec_invalid_request(r->Err_0, "chat description must not exceed 100 characters"@),
        r is Ok <==> request.sensitivity != ContentSensitivity::Sensitive && 1 <= request.name@.len()
            <= 60 && !(request.description matches Some(d) && d@.len() > 100),
{
    request.sensitivity.require_argv_safe()?;
    let n = chars_of(request.name.as_str()).len();
    if n == 0 || n > 60 {
        return Err(invalid("chat name must contain 1 to 60 characters"));
    }
    match &request.description {
        Some(d) => {
            if chars_of(d.as_str()).len() > 100 {
                return Err(invalid("chat description must not exceed 100 characters"));
            }
        },
        None => {},
    }
    Ok(())
}

} // verus!
