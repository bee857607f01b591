//! Reconciling a document create by its run-unique exact title and body
//! digest: every search page is read and every exact DOCX candidate fetched
//! before deciding, and two documents with the digest stay ambiguous.
use vstd::prelude::*;

use crate::integrations::lark::documents::body_matches;
use crate::integrations::lark::documents::check_candidate_url;
use crate::integrations::lark::documents::document_match;
use crate::integrations::lark::documents::is_candidate;
use crate::integrations::lark::documents::spec_strip_highlights;
use crate::integrations::lark::documents::spec_strs;
use crate::integrations::lark::documents::validate_reconcile;
use crate::integrations::lark::error::LarkCliError;
use crate::integrations::lark::identity::LarkIdentity;
use crate::integrations::lark::listing::page_fault_error;
use crate::integrations::lark::listing::spec_invalid_request;
use crate::integrations::lark::listing::spec_page_fault_message;
use crate::integrations::lark::listing::spec_response_error;
use crate::integrations::lark::paging::PageCursor;
use crate::integrations::lark::paging::PageFault;
use crate::integrations::lark::paging::MAX_PAGES;
use crate::integrations::lark::types::DocumentMatch;
use crate::integrations::lark::types::DocumentSnapshot;
use crate::runtime::document_update::spec_content_sha256;
use crate::runtime::document_update::spec_valid_sha256;
use crate::text::spec_blank;

verus! {

/// One result of a document search.
#[derive(Clone, Debug, PartialEq, Eq)]
pub struct DocumentSearchResult {
    pub title_highlighted: String,
    pub doc_types: String,
    pub url: String,
}

/// One page of a document search, as `lark-cli` returned it.
#[derive(Clone, Debug, PartialEq, Eq)]
pub struct DocumentSearchPage {
    pub results: Vec<DocumentSearchResult>,
    pub has_more: bool,
    pub page_token: Option<String>,
}

/// What is searched for.
#[derive(Clone, Debug, PartialEq, Eq)]
pub struct SearchContext {
    pub identity: LarkIdentity,
    pub exact_title: String,
    pub expected_sha256: String,
}

#[derive(Clone, Copy, Debug, PartialEq, Eq, Structural)]
pub enum SearchPhase {
    /// Waiting for a search page.
    AwaitPage,
    /// Waiting for the candidate just asked for.
    AwaitFetch,
    Done,
}

/// The tokens followed, the candidate URLs fetched, the current page's
/// candidates and the next of them, how the page ends, the documents with
/// the digest, and every document fetched.
pub struct SearchState {
    pub phase: SearchPhase,
    pub cursor: PageCursor,
    pub seen_urls: Vec<String>,
    pub candidates: Vec<String>,
    pub next: usize,
    pub has_more: bool,
    pub page_token: Option<String>,
    pub matches: Vec<DocumentSnapshot>,
    pub fetched: Ghost<Seq<DocumentSnapshot>>,
}

pub enum SearchEvent {
    Page(DocumentSearchPage),
    Fetched(DocumentSnapshot),
}

#[derive(Debug, PartialEq, Eq)]
pub enum SearchAction {
    /// Search for the title as the user, continuing at this token.
    Search { page_token: Option<String> },
    /// Fetch the candidate at this URL.
    Fetch { url: String },
    Finish(Result<DocumentMatch, LarkCliError>),
}

/// The URLs of the exact DOCX candidates among `results`, in order.
pub open spec fn spec_candidates(results: Seq<DocumentSearchResult>, exact_title: Seq<char>) -> Seq<Seq<char>>
    decreases results.len(),
{
    if results.len() == 0 {
        Seq::empty()
    } else {
        let before = spec_candidates(results.drop_last(), exact_title);
        let last = results.last();
        if last.doc_types@ == "DOCX"@ && spec_strip_highlights(last.title_highlighted@) == exact_title {
            before.push(last.url@)
        } else {
            before
        }
    }
}

/// The documents among `fetched` whose body has the digest, in order.
pub open spec fn spec_matching(fetched: Seq<DocumentSnapshot>, expected_sha256: Seq<char>) -> Seq<DocumentSnapshot>
    decreases fetched.len(),
{
    if fetched.len() == 0 {
        Seq::empty()
    } else {
        let before = spec_matching(fetched.drop_last(), expected_sha256);
        if spec_content_sha256(fetched.last().markdown@) == expected_sha256 {
            before.push(fetched.last())
        } else {
            before
        }
    }
}

/// No document, exactly one, or several.
pub open spec fn spec_classified(matches: Seq<DocumentSnapshot>, m: DocumentMatch) -> bool {
    if matches.len() == 0 {
        m == DocumentMatch::Missing
    } else if matches.len() == 1 {
        m == DocumentMatch::Found(matches[0])
    } else {
        m matches DocumentMatch::Ambiguous(all) && all@ == matches
    }
}

/// What a reconciliation keeps.
pub open spec fn spec_search_inv(ctx: SearchContext, s: SearchState) -> bool {
    &&& s.next <= s.candidates.len()
    &&& s.phase != SearchPhase::Done ==> s.matches@ == spec_matching(s.fetched@, ctx.expected_sha256@)
    &&& s.phase != SearchPhase::Done ==> s.cursor.pages() < MAX_PAGES
    &&& s.phase == SearchPhase::AwaitPage ==> s.fetched@.len() == s.seen_urls@.len()
    &&& s.phase == SearchPhase::AwaitFetch ==> s.fetched@.len() + 1 == s.seen_urls@.len()
}

/// The fault of a page that says there is more.
pub open spec fn spec_page_fault(cursor: PageCursor, token: Option<String>) -> Option<PageFault> {
    match token {
        None => Some(PageFault::MissingToken),
        Some(t) => if t@.len() == 0 {
            Some(PageFault::MissingToken)
        } else if cursor.seen().contains(t@) {
            Some(PageFault::Looped)
        } else if cursor.pages() + 1 >= MAX_PAGES {
            Some(PageFault::LimitExceeded)
        } else {
            None
        },
    }
}

/// `r` goes on from `s`: the next candidate, if any, is checked and
/// fetched; after the last candidate the last page ends the search with
/// the documents that had the digest, and any other continues at its token.
pub open spec fn spec_proceeded(s: SearchState, r: (SearchState, SearchAction)) -> bool {
    if s.next < s.candidates.len() {
        let url = s.candidates@[s.next as int]@;
        if spec_blank(url) || spec_strs(s.seen_urls@).contains(url) {
            r.0.phase == SearchPhase::Done && (r.1 matches SearchAction::Finish(Err(e)) && spec_response_error(
                e,
                "document search returned an empty or duplicate URL"@,
            ))
        } else {
            &&& r.0.phase == SearchPhase::AwaitFetch
            &&& spec_strs(r.0.seen_urls@) == spec_strs(s.seen_urls@).push(url)
            &&& spec_strs(r.0.candidates@) == spec_strs(s.candidates@)
            &&& r.0.next == s.next + 1
            &&& r.0.has_more == s.has_more
            &&& r.0.page_token == s.page_token
            &&& r.0.matches@ == s.matches@
            &&& r.0.fetched@ == s.fetched@
            &&& r.0.cursor.seen() == s.cursor.seen()
            &&& r.0.cursor.pages() == s.cursor.pages()
            &&& r.1 matches SearchAction::Fetch { url: u } && u@ == url
        }
    } else if !s.has_more {
        r.0.phase == SearchPhase::Done && r.0.fetched@ == s.fetched@ && spec_strs(r.0.seen_urls@) == spec_strs(
            s.seen_urls@,
        ) && (r.1 matches SearchAction::Finish(Ok(m)) && spec_classified(s.matches@, m))
    } else {
        match spec_page_fault(s.cursor, s.page_token) {
            Some(f) => r.0.phase == SearchPhase::Done && (r.1 matches SearchAction::Finish(Err(e)) && spec_response_error(
                e,
                spec_page_fault_message("document search"@, f),
            )),
            None => {
                &&& r.0.phase == SearchPhase::AwaitPage
                &&& r.0.cursor.seen() == s.cursor.seen().push(s.page_token->0@)
                &&& r.0.cursor.pages() == s.cursor.pages() + 1
                &&& spec_strs(r.0.seen_urls@) == spec_strs(s.seen_urls@)
                &&& r.0.matches@ == s.matches@
                &&& r.0.fetched@ == s.fetched@
                &&& r.1 matches SearchAction::Search { page_token: Some(t) } && t@ == s.page_token->0@
            },
        }
    }
}

/// `mid` and `s` agree on the search so far.
pub open spec fn spec_same_search(mid: SearchState, s: SearchState) -> bool {
    &&& spec_strs(mid.seen_urls@) == spec_strs(s.seen_urls@)
    &&& mid.cursor.seen() == s.cursor.seen()
    &&& mid.cursor.pages() == s.cursor.pages()
}

/// `r` is the step of a reconciliation: a page sets its candidates and how it
/// ends; a fetched candidate is kept when its body has the digest; then the
/// search goes on.
pub open spec fn spec_search_step(ctx: SearchContext, s: SearchState, event: SearchEvent, r: (SearchState, SearchAction)) -> bool {
    match event {
        SearchEvent::Page(page) => exists|mid: SearchState|
            #[trigger] spec_proceeded(mid, r) && spec_same_search(mid, s) && spec_strs(mid.candidates@)
                == spec_candidates(page.results@, ctx.exact_title@) && mid.next == 0 && mid.has_more
                == page.has_more && mid.page_token == page.page_token && mid.matches@ == s.matches@
                && mid.fetched@ == s.fetched@,
        SearchEvent::Fetched(snapshot) => exists|mid: SearchState|
            #[trigger] spec_proceeded(mid, r) && spec_same_search(mid, s) && spec_strs(mid.candidates@)
                == spec_strs(s.candidates@) && mid.next == s.next && mid.has_more == s.has_more && mid.page_token
                == s.page_token && mid.fetched@ == s.fetched@.push(snapshot) && mid.matches@ == (if spec_content_sha256(
                snapshot.markdown@,
            ) == ctx.expected_sha256@ {
                s.matches@.push(snapshot)
            } else {
                s.matches@
            }),
    }
}

pub open spec fn spec_search_fits(s: SearchState, event: SearchEvent) -> bool {
    match event {
        SearchEvent::Page(_) => s.phase == SearchPhase::AwaitPage,
        SearchEvent::Fetched(_) => s.phase == SearchPhase::AwaitFetch,
    }
}

/// Starts a reconciliation: it searches as the user for a non-blank exact
/// title and a 64-digit lower-case digest, from the first page.
pub fn search_begin(identity: LarkIdentity, exact_title: String, expected_sha256: String) -> (r: Result<
    (SearchContext, SearchState, SearchAction),
    LarkCliError,
>)
    ensures
        identity != LarkIdentity::User ==> r is Err && spec_invalid_request(
            r->Err_0,
            "document search reconciliation requires user identity"@,
        ),
        identity == LarkIdentity::User && (spec_blank(exact_title@) || !spec_valid_sha256(expected_sha256@))
            ==> r is Err && spec_invalid_request(r->Err_0, "document reconciliation title or SHA-256 is invalid"@),
        r is Ok <==> identity == LarkIdentity::User && !spec_blank(exact_title@) && spec_valid_sha256(
            expected_sha256@,
        ),
        r matches Ok((ctx, s, a)) ==> ctx.identity == identity && ctx.exact_title@ == exact_title@
            && ctx.expected_sha256@ == expected_sha256@ && s.phase == SearchPhase::AwaitPage
            && s.seen_urls@.len() == 0 && s.fetched@.len() == 0 && s.cursor.seen().len() == 0
            && s.cursor.pages() == 0 && spec_search_inv(ctx, s) && a == (SearchAction::Search {
            page_token: None,
        }),
{
    match validate_reconcile(identity, exact_title.as_str(), expected_sha256.as_str()) {
        Err(e) => Err(e),
        Ok(()) => {
            let ctx = SearchContext { identity, exact_title, expected_sha256 };
            let s = SearchState {
                phase: SearchPhase::AwaitPage,
                cursor: PageCursor::new(),
                seen_urls: Vec::new(),
                candidates: Vec::new(),
                next: 0,
                has_more: false,
                page_token: None,
                matches: Vec::new(),
                fetched: Ghost(Seq::empty()),
            };
            Ok((ctx, s, SearchAction::Search { page_token: None }))
        },
    }
}

fn candidate_urls(results: &Vec<DocumentSearchResult>, exact_title: &str) -> (r: Vec<String>)
    ensures
        spec_strs(r@) == spec_candidates(results@, exact_title@),
{
    let mut out: Vec<String> = Vec::new();
    let mut i: usize = 0;
    while i < results.len()
        invariant
            i <= results.len(),
            spec_strs(out@) == spec_candidates(results@.take(i as int), exact_title@),
        decreases results.len() - i,
    {
        let res = &results[i];
        assert(results@.take(i + 1).drop_last() == results@.take(i as int));
        if is_candidate(res.doc_types.as_str(), res.title_highlighted.as_str(), exact_title) {
            let ghost before = out@;
            out.push(res.url.clone());
            assert(spec_strs(out@) == spec_strs(before).push(res.url@));
        }
        i += 1;
    }
    assert(results@.take(results.len() as int) == results@);
    out
}

fn proceed(s: SearchState) -> (r: (SearchState, SearchAction))
    requires
        s.phase != SearchPhase::Done,
        s.next <= s.candidates.len(),
        s.cursor.pages() < MAX_PAGES,
        s.fetched@.len() == s.seen_urls@.len(),
    ensures
        spec_proceeded(s, r),
        r.0.next <= r.0.candidates.len(),
        r.0.phase != SearchPhase::Done ==> r.0.matches@ == s.matches@,
        r.0.fetched@ == s.fetched@,
        r.0.phase != SearchPhase::Done ==> r.0.cursor.pages() < MAX_PAGES,
        r.0.phase == SearchPhase::AwaitPage ==> r.0.fetched@.len() == r.0.seen_urls@.len(),
        r.0.phase == SearchPhase::AwaitFetch ==> r.0.fetched@.len() + 1 == r.0.seen_urls@.len(),
        r.1 matches SearchAction::Finish(Ok(_)) ==> r.0.fetched@.len() == r.0.seen_urls@.len(),
{
    let SearchState { phase, mut cursor, mut seen_urls, candidates, next, has_more, page_token, matches, fetched } = s;
    if next < candidates.len() {
        let url = candidates[next].clone();
        let ghost before = seen_urls@;
        match check_candidate_url(&mut seen_urls, url.as_str()) {
            Err(e) => {
                let st = SearchState { phase: SearchPhase::Done, cursor, seen_urls, candidates, next, has_more, page_token, matches, fetched };
                return (st, SearchAction::Finish(Err(e)));
            },
            Ok(()) => {
                assert(spec_strs(seen_urls@).len() == seen_urls@.len());
                assert(spec_strs(before).len() == before.len());
                let st = SearchState { phase: SearchPhase::AwaitFetch, cursor, seen_urls, candidates, next: next + 1, has_more, page_token, matches, fetched };
                return (st, SearchAction::Fetch { url });
            },
        }
    }
    if !has_more {
        let m = document_match(matches);
        let st = SearchState { phase: SearchPhase::Done, cursor, seen_urls, candidates, next, has_more, page_token: None, matches: Vec::new(), fetched };
        return (st, SearchAction::Finish(Ok(m)));
    }
    let ghost token = page_token;
    match cursor.advance(true, page_token) {
        Err(f) => {
            let e = page_fault_error("document search", f);
            let st = SearchState { phase: SearchPhase::Done, cursor, seen_urls, candidates, next, has_more, page_token: None, matches, fetched };
            (st, SearchAction::Finish(Err(e)))
        },
        Ok(t) => {
            let st = SearchState { phase: SearchPhase::AwaitPage, cursor, seen_urls, candidates, next, has_more, page_token: None, matches, fetched };
            (st, SearchAction::Search { page_token: t })
        },
    }
}

/// Advances a reconciliation by one page or one fetched candidate.
pub fn search_step(ctx: &SearchContext, s: SearchState, event: SearchEvent) -> (r: (SearchState, SearchAction))
    requires
        spec_search_inv(*ctx, s),
        spec_search_fits(s, event),
    ensures
        spec_search_step(*ctx, s, event, r),
        spec_search_inv(*ctx, r.0),
        r.1 matches SearchAction::Finish(Ok(m)) ==> spec_classified(
            spec_matching(r.0.fetched@, ctx.expected_sha256@),
            m,
        ) && r.0.fetched@.len() == r.0.seen_urls@.len(),
{
    let SearchState { phase, cursor, seen_urls, candidates, next, has_more, page_token, matches, fetched } = s;
    match event {
        SearchEvent::Page(page) => {
            let DocumentSearchPage { results, has_more, page_token } = page;
            let candidates = candidate_urls(&results, ctx.exact_title.as_str());
            let mid = SearchState { phase, cursor, seen_urls, candidates, next: 0, has_more, page_token, matches, fetched };
            let ghost g: SearchState = mid;
            let r = proceed(mid);
            assert(spec_proceeded(g, r));
            r
        },
        SearchEvent::Fetched(snapshot) => {
            let keep = body_matches(&snapshot, ctx.expected_sha256.as_str());
            let ghost all: Seq<DocumentSnapshot> = fetched@.push(snapshot);
            let mut matches = matches;
            proof {
                assert(all.drop_last() =~= fetched@);
            }
            if keep {
                matches.push(snapshot);
            }
            let mid = SearchState {
                phase,
                cursor,
                seen_urls,
                candidates,
                next,
                has_more,
                page_token,
                matches,
                fetched: Ghost(all),
            };
            let ghost g: SearchState = mid;
            let r = proceed(mid);
            assert(spec_proceeded(g, r));
            r
        },
    }
}

} // verus!
