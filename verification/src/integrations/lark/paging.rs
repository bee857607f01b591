//! Continuation-token paging shared by every paged `lark-cli` listing: each
//! continuation must carry a fresh, non-empty token, within a page limit.
use vstd::prelude::*;

use crate::text::owned;
use crate::text::str_eq;

verus! {

/// Pages fetched at most per listing.
pub const MAX_PAGES: usize = 100;

/// Why a paged listing stopped before its last page.
#[derive(Clone, Copy, Debug, PartialEq, Eq, Structural)]
pub enum PageFault {
    /// A page said there was more but gave no token.
    MissingToken,
    /// A token came back a second time.
    Looped,
    /// The page limit was reached with more pages left.
    LimitExceeded,
}

/// No token occurs twice.
pub open spec fn spec_distinct(s: Seq<Seq<char>>) -> bool {
    forall|i: int, j: int| 0 <= i < j < s.len() ==> s[i] != s[j]
}

/// The tokens a listing has followed and the pages it has read.
pub struct PageCursor {
    seen: Vec<String>,
    pages: usize,
}

impl PageCursor {
    pub closed spec fn seen(&self) -> Seq<Seq<char>> {
        self.seen@.map_values(|s: String| s@)
    }

    pub closed spec fn pages(&self) -> nat {
        self.pages as nat
    }

    #[verifier::type_invariant]
    closed spec fn wf(&self) -> bool {
        spec_distinct(self.seen@.map_values(|s: String| s@))
    }

    /// A listing never follows the same token twice.
    pub fn followed(&self) -> (r: usize)
        ensures
            r == self.seen().len(),
            spec_distinct(self.seen()),
    {
        proof {
            use_type_invariant(self);
        }
        self.seen.len()
    }

    pub fn new() -> (r: Self)
        ensures
            r.seen().len() == 0,
            r.pages() == 0,
    {
        PageCursor { seen: Vec::new(), pages: 0 }
    }

    /// After reading a page: `None` when it was the last, else the token of the
    /// next page, which must be non-empty and not seen before, while pages remain.
    #[verifier::loop_isolation(false)]
    pub fn advance(&mut self, has_more: bool, token: Option<String>) -> (r: Result<
        Option<String>,
        PageFault,
    >)
        requires
            old(self).pages() < MAX_PAGES,
        ensures
            final(self).pages() == old(self).pages() + 1,
            !has_more ==> r == Ok::<Option<String>, PageFault>(None),
            has_more ==> match token {
                None => r == Err::<Option<String>, PageFault>(PageFault::MissingToken),
                Some(t) => if t@.len() == 0 {
                    r == Err::<Option<String>, PageFault>(PageFault::MissingToken)
                } else if old(self).seen().contains(t@) {
                    r == Err::<Option<String>, PageFault>(PageFault::Looped)
                } else if old(self).pages() + 1 >= MAX_PAGES {
                    r == Err::<Option<String>, PageFault>(PageFault::LimitExceeded)
                } else {
                    r matches Ok(Some(n)) && n@ == t@ && final(self).seen() == old(self).seen().push(t@)
                },
            },
    {
        proof {
            use_type_invariant(&*self);
        }
        self.pages = self.pages + 1;
        if !has_more {
            return Ok(None);
        }
        let t = match token {
            None => return Err(PageFault::MissingToken),
            Some(t) => t,
        };
        if crate::text::chars_of(t.as_str()).len() == 0 {
            return Err(PageFault::MissingToken);
        }
        let mut i: usize = 0;
        while i < self.seen.len()
            invariant
                i <= self.seen@.len(),
                forall|j: int| 0 <= j < i ==> self.seen@[j]@ != t@,
            decreases self.seen.len() - i,
        {
            if str_eq(self.seen[i].as_str(), t.as_str()) {
                assert(self.seen()[i as int] == t@);
                return Err(PageFault::Looped);
            }
            i += 1;
        }
        if self.pages >= MAX_PAGES {
            return Err(PageFault::LimitExceeded);
        }
        let mut seen: Vec<String> = Vec::new();
        std::mem::swap(&mut seen, &mut self.seen);
        let ghost before = seen@;
        seen.push(owned(t.as_str()));
        assert(seen@.map_values(|s: String| s@) =~= before.map_values(|s: String| s@).push(t@));
        self.seen = seen;
        Ok(Some(t))
    }
}

} // verus!
