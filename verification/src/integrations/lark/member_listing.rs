//! Listing every member of a chat, page by page: the pages' members are
//! concatenated in order, each an open id listed once, and the listing is
//! complete only when its last page came and the count is the announced total.
use vstd::prelude::*;

use crate::integrations::lark::error::LarkCliError;
use crate::integrations::lark::listing::accept_members;
use crate::integrations::lark::listing::finish_members;
use crate::integrations::lark::listing::spec_accept_members;
use crate::integrations::lark::listing::spec_member_known;
use crate::integrations::lark::listing::spec_response_error;
use crate::integrations::lark::paging::PageCursor;
use crate::integrations::lark::paging::PageFault;
use crate::integrations::lark::paging::MAX_PAGES;
use crate::integrations::lark::types::ChatMember;
use crate::integrations::lark::types::ChatMembers;
use crate::text::owned;

verus! {

/// One page of a chat's members, as `lark-cli` returned it.
#[derive(Debug, PartialEq, Eq)]
pub struct ChatMemberPage {
    pub items: Vec<ChatMember>,
    pub member_total: u64,
    pub has_more: bool,
    pub page_token: Option<String>,
}

#[derive(Clone, Copy, Debug, PartialEq, Eq, Structural)]
pub enum MemberListPhase {
    AwaitPage,
    Done,
}

/// The members listed so far and the tokens followed.
pub struct MemberListState {
    pub phase: MemberListPhase,
    pub cursor: PageCursor,
    pub members: Vec<ChatMember>,
}

#[derive(Debug, PartialEq, Eq)]
pub enum MemberListAction {
    /// Fetch the page with this token (`None`: the first page).
    FetchPage { page_token: Option<String> },
    Finish(Result<ChatMembers, LarkCliError>),
}

/// Every member is an open id, and no id occurs twice.
pub open spec fn spec_members_ok(members: Seq<ChatMember>) -> bool {
    &&& forall|i: int| 0 <= i < members.len() ==> (#[trigger] members[i]).member_id_type@ == "open_id"@
    &&& forall|i: int, j: int| 0 <= i < j < members.len() ==> members[i].member_id@ != members[j].member_id@
}

/// The error of a paging fault of a member listing.
pub open spec fn spec_member_fault_message(f: PageFault) -> Seq<char> {
    match f {
        PageFault::MissingToken => "chat member page omitted its continuation token"@,
        PageFault::Looped => "chat member pagination looped"@,
        PageFault::LimitExceeded => "chat member pagination exceeded its page limit"@,
    }
}

pub fn member_fault_error(f: PageFault) -> (e: LarkCliError)
    ensures
        spec_response_error(e, spec_member_fault_message(f)),
{
    let message = match f {
        PageFault::MissingToken => owned("chat member page omitted its continuation token"),
        PageFault::Looped => owned("chat member pagination looped"),
        PageFault::LimitExceeded => owned("chat member pagination exceeded its page limit"),
    };
    LarkCliError::InvalidResponse { message }
}

/// What the listing keeps between pages.
pub open spec fn spec_member_list_inv(s: MemberListState) -> bool {
    &&& spec_members_ok(s.members@)
    &&& s.phase == MemberListPhase::AwaitPage ==> s.cursor.pages() < MAX_PAGES
}

/// Accepting a page in order adds exactly its items after those already
/// listed, and keeps them open ids listed once.
proof fn lemma_accept_concatenates(known: Seq<ChatMember>, items: Seq<ChatMember>, i: int)
    requires
        0 <= i <= items.len(),
        spec_members_ok(known),
    ensures
        spec_accept_members(known, items, i) matches Ok(all) ==> all == known + items.skip(i) && spec_members_ok(all),
    decreases items.len() - i,
{
    if i < items.len() && items[i].member_id_type@ == "open_id"@ && !spec_member_known(known, items[i].member_id@) {
        let next = known.push(items[i]);
        assert forall|a: int, b: int| 0 <= a < b < next.len() implies next[a].member_id@ != next[b].member_id@ by {
            if b == known.len() {
                if next[a].member_id@ == next[b].member_id@ {
                    assert(known[a].member_id@ == items[i].member_id@);
                }
            }
        }
        lemma_accept_concatenates(next, items, i + 1);
        assert(known + items.skip(i) == next + items.skip(i + 1));
    }
    if i == items.len() {
        assert(items.skip(i) =~= Seq::<ChatMember>::empty());
        assert(known + items.skip(i) =~= known);
    }
}

/// `r` is the step of a listing on one page: its members are accepted after
/// those listed; the last page ends the listing, which must count the page's
/// total; any other page continues with a fresh token within the page limit.
pub open spec fn spec_member_list_step(s: MemberListState, page: ChatMemberPage, r: (MemberListState, MemberListAction)) -> bool {
    match spec_accept_members(s.members@, page.items@, 0) {
        Err(k) => r.0.phase == MemberListPhase::Done && (r.1 matches MemberListAction::Finish(Err(e)) && if k == 0 {
            spec_response_error(e, "chat member response used another ID type"@)
        } else {
            spec_response_error(e, "chat member pagination returned a duplicate"@)
        }),
        Ok(all) => {
            &&& all == s.members@ + page.items@
            &&& if !page.has_more {
                r.0.phase == MemberListPhase::Done && if all.len() == page.member_total {
                    r.1 matches MemberListAction::Finish(Ok(cm)) && cm.members@ == all && cm.member_total
                        == page.member_total
                } else {
                    r.1 matches MemberListAction::Finish(Err(e)) && spec_response_error(
                        e,
                        "chat member pagination was incomplete"@,
                    )
                }
            } else {
                let fault = match page.page_token {
                    None => Some(PageFault::MissingToken),
                    Some(t) => if t@.len() == 0 {
                        Some(PageFault::MissingToken)
                    } else if s.cursor.seen().contains(t@) {
                        Some(PageFault::Looped)
                    } else if s.cursor.pages() + 1 >= MAX_PAGES {
                        Some(PageFault::LimitExceeded)
                    } else {
                        None
                    },
                };
                match fault {
                    Some(f) => r.0.phase == MemberListPhase::Done && (r.1 matches MemberListAction::Finish(Err(e))
                        && spec_response_error(e, spec_member_fault_message(f))),
                    None => {
                        &&& r.0.phase == MemberListPhase::AwaitPage
                        &&& r.0.members@ == all
                        &&& r.0.cursor.seen() == s.cursor.seen().push(page.page_token->0@)
                        &&& r.0.cursor.pages() == s.cursor.pages() + 1
                        &&& r.1 matches MemberListAction::FetchPage { page_token: Some(t) } && t@
                            == page.page_token->0@
                    },
                }
            }
        },
    }
}

/// A listing starts with the first page.
pub fn member_list_begin() -> (r: (MemberListState, MemberListAction))
    ensures
        r.0.phase == MemberListPhase::AwaitPage,
        r.0.members@.len() == 0,
        r.0.cursor.seen().len() == 0,
        r.0.cursor.pages() == 0,
        r.1 == (MemberListAction::FetchPage { page_token: None }),
        spec_member_list_inv(r.0),
{
    (
        MemberListState { phase: MemberListPhase::AwaitPage, cursor: PageCursor::new(), members: Vec::new() },
        MemberListAction::FetchPage { page_token: None },
    )
}

/// Advances a member listing by one page.
pub fn member_list_step(s: MemberListState, page: ChatMemberPage) -> (r: (MemberListState, MemberListAction))
    requires
        s.phase == MemberListPhase::AwaitPage,
        spec_member_list_inv(s),
    ensures
        spec_member_list_step(s, page, r),
        spec_member_list_inv(r.0),
{
    proof {
        lemma_accept_concatenates(s.members@, page.items@, 0);
        assert(page.items@.skip(0) =~= page.items@);
    }
    let MemberListState { phase, mut cursor, mut members } = s;
    let ChatMemberPage { items, member_total, has_more, page_token } = page;
    match accept_members(&mut members, items) {
        Err(e) => {
            return (
                MemberListState { phase: MemberListPhase::Done, cursor, members: Vec::new() },
                MemberListAction::Finish(Err(e)),
            );
        },
        Ok(()) => {},
    }
    if !has_more {
        let result = finish_members(members, member_total);
        return (
            MemberListState { phase: MemberListPhase::Done, cursor, members: Vec::new() },
            MemberListAction::Finish(result),
        );
    }
    match cursor.advance(has_more, page_token) {
        Err(f) => {
            let e = member_fault_error(f);
            (MemberListState { phase: MemberListPhase::Done, cursor, members }, MemberListAction::Finish(Err(e)))
        },
        Ok(next) => (MemberListState { phase: MemberListPhase::AwaitPage, cursor, members }, MemberListAction::FetchPage { page_token: next }),
    }
}

} // verus!
