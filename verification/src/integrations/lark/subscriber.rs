//! The NDJSON framing of the `event +subscribe` stream and its argument vector.
use vstd::prelude::*;

use crate::text::owned;

verus! {

/// The arguments that subscribe to IM message events as the bot, quietly.
pub open spec fn spec_subscriber_args() -> Seq<Seq<char>> {
    seq![
        "event"@,
        "+subscribe"@,
        "--as"@,
        "bot"@,
        "--event-types"@,
        "im.message.receive_v1"@,
        "--quiet"@,
    ]
}

pub fn subscriber_args() -> (r: Vec<String>)
    ensures
        r@.map_values(|s: String| s@) == spec_subscriber_args(),
{
    let mut v: Vec<String> = Vec::new();
    v.push(owned("event"));
    v.push(owned("+subscribe"));
    v.push(owned("--as"));
    v.push(owned("bot"));
    v.push(owned("--event-types"));
    v.push(owned("im.message.receive_v1"));
    v.push(owned("--quiet"));
    assert(v@.map_values(|s: String| s@) =~= spec_subscriber_args());
    v
}

/// Splits the event stream into lines of at most `maximum` bytes; a longer
/// line is dropped whole, up to its newline.
#[derive(Debug)]
pub struct LineFramer {
    line: Vec<u8>,
    discarding: bool,
    maximum: usize,
}

impl LineFramer {
    pub closed spec fn pending(&self) -> Seq<u8> {
        self.line@
    }

    pub closed spec fn is_discarding(&self) -> bool {
        self.discarding
    }

    pub closed spec fn spec_maximum(&self) -> usize {
        self.maximum
    }

    /// The pending line fits and holds no newline.
    #[verifier::type_invariant]
    closed spec fn wf(&self) -> bool {
        self.line@.len() <= self.maximum && !self.line@.contains(10u8)
    }

    pub fn new(maximum: usize) -> (r: Self)
        ensures
            r.pending().len() == 0,
            !r.is_discarding(),
            r.spec_maximum() == maximum,
    {
        LineFramer { line: Vec::new(), discarding: false, maximum }
    }

    /// Takes one byte; at a newline, hands back the line it ends if that line
    /// is non-empty and was not too long. A line handed back never holds a
    /// newline and never exceeds the maximum.
    pub fn push(&mut self, byte: u8) -> (r: Option<Vec<u8>>)
        ensures
            final(self).spec_maximum() == old(self).spec_maximum(),
            r matches Some(l) ==> 0 < l@.len() <= old(self).spec_maximum() && !l@.contains(10u8),
            byte == 10 ==> {
                &&& final(self).pending().len() == 0
                &&& !final(self).is_discarding()
                &&& if !old(self).is_discarding() && old(self).pending().len() > 0 {
                    r matches Some(l) && l@ == old(self).pending()
                } else {
                    r is None
                }
            },
            byte != 10 ==> r is None && if old(self).pending().len() < old(self).spec_maximum() {
                &&& final(self).is_discarding() == old(self).is_discarding()
                &&& final(self).pending() == if old(self).is_discarding() {
                    old(self).pending()
                } else {
                    old(self).pending().push(byte)
                }
            } else {
                final(self).pending().len() == 0 && final(self).is_discarding()
            },
    {
        proof {
            use_type_invariant(&*self);
        }
        if byte == 10 {
            let out = if !self.discarding && self.line.len() > 0 {
                let mut taken: Vec<u8> = Vec::new();
                std::mem::swap(&mut taken, &mut self.line);
                Some(taken)
            } else {
                self.line = Vec::new();
                None
            };
            self.discarding = false;
            out
        } else if self.line.len() < self.maximum {
            if !self.discarding {
                let mut line: Vec<u8> = Vec::new();
                std::mem::swap(&mut line, &mut self.line);
                let ghost before = line@;
                line.push(byte);
                assert(!line@.contains(10u8)) by {
                    assert forall|k: int| 0 <= k < line@.len() implies line@[k] != 10u8 by {
                        if k < before.len() {
                            assert(before[k] == line@[k]);
                        }
                    }
                }
                self.line = line;
            }
            None
        } else {
            self.line = Vec::new();
            self.discarding = true;
            None
        }
    }
}

} // verus!
