//! Strict decoding of the raw IM events emitted by `event +subscribe`.
use vstd::prelude::*;

use crate::integrations::lark::error::LarkCliError;
use crate::integrations::lark::identity::ChatId;
use crate::integrations::lark::identity::MessageId;
use crate::integrations::lark::identity::OpenId;
use crate::integrations::lark::identity::spec_prefixed_id;
use crate::text::chars_of;
use crate::text::owned;
use crate::text::str_eq;
use vstd::string::StrSliceExecFns;
use vstd::utf8::encode_utf8;

verus! {

/// Bounded typed projection of one raw Lark IM event.
#[derive(Clone, Debug, PartialEq, Eq)]
pub struct LarkEvent {
    pub event_id: String,
    pub event_type: String,
    pub created_at_ms: i64,
    pub message_id: MessageId,
    pub chat_id: ChatId,
    pub thread_id: Option<String>,
    pub sender_id: OpenId,
    pub message_type: String,
    pub text: String,
}

/// The fields of one raw event line, as its JSON gives them.
#[derive(Clone, Debug, PartialEq, Eq)]
pub struct RawEnvelope {
    pub event_id: String,
    pub event_type: String,
    pub create_time: String,
    pub chat_id: String,
    pub content: String,
    pub message_id: String,
    pub message_type: String,
    pub thread_id: Option<String>,
    pub sender_open_id: String,
}

/// Strict decoder for raw NDJSON emitted by `event +subscribe`.
#[derive(Clone, Debug)]
pub struct LarkEventDecoder {
    maximum_line_bytes: usize,
    maximum_text_bytes: usize,
}

// ---------------------------------------------------------------- i64 text

pub open spec fn spec_digit(c: char) -> bool {
    '0' <= c && c <= '9'
}

pub open spec fn spec_digits_value(s: Seq<char>) -> int
    decreases s.len(),
{
    if s.len() == 0 {
        0
    } else {
        10 * spec_digits_value(s.drop_last()) + (s.last() as int - '0' as int)
    }
}

/// The digits after an optional leading sign.
pub open spec fn spec_unsigned_part(s: Seq<char>) -> Seq<char> {
    if s.len() > 0 && (s[0] == '-' || s[0] == '+') {
        s.drop_first()
    } else {
        s
    }
}

pub open spec fn spec_all_digits(s: Seq<char>) -> bool {
    forall|i: int| 0 <= i < s.len() ==> #[trigger] spec_digit(s[i])
}

/// `str::parse::<i64>`: an optional sign, then one or more decimal digits, in range.
pub open spec fn spec_parse_i64(s: Seq<char>) -> Option<i64> {
    let body = spec_unsigned_part(s);
    let v = if s.len() > 0 && s[0] == '-' {
        -spec_digits_value(body)
    } else {
        spec_digits_value(body)
    };
    if body.len() == 0 || !spec_all_digits(body) {
        None
    } else if i64::MIN <= v && v <= i64::MAX {
        Some(v as i64)
    } else {
        None
    }
}

proof fn lemma_digits_value_grows(s: Seq<char>, k: int)
    requires
        0 <= k <= s.len(),
        forall|i: int| 0 <= i < s.len() ==> #[trigger] spec_digit(s[i]),
    ensures
        spec_digits_value(s.take(k)) <= spec_digits_value(s),
        0 <= spec_digits_value(s.take(k)),
    decreases s.len() - k,
{
    assert forall|i: int| 0 <= i < s.take(k).len() implies #[trigger] spec_digit(s.take(k)[i]) by {
        assert(spec_digit(s[i]));
    }
    if k < s.len() {
        lemma_digits_value_grows(s, k + 1);
        assert(s.take(k + 1).drop_last() == s.take(k));
        lemma_digits_value_nonneg(s.take(k));
        assert(spec_digit(s[k]));
    } else {
        assert(s.take(k) == s);
        lemma_digits_value_nonneg(s);
    }
}

proof fn lemma_digits_value_nonneg(s: Seq<char>)
    requires
        forall|i: int| 0 <= i < s.len() ==> #[trigger] spec_digit(s[i]),
    ensures
        0 <= spec_digits_value(s),
    decreases s.len(),
{
    if s.len() > 0 {
        assert forall|i: int| 0 <= i < s.drop_last().len() implies #[trigger] spec_digit(s.drop_last()[i]) by {
            assert(spec_digit(s[i]));
        }
        lemma_digits_value_nonneg(s.drop_last());
        assert(spec_digit(s[s.len() - 1]));
    }
}

/// Parses a decimal `i64` as `str::parse` does.
pub fn parse_i64(text: &str) -> (r: Option<i64>)
    ensures
        r == spec_parse_i64(text@),
{
    let cs = chars_of(text);
    let ghost s = text@;
    let neg = cs.len() > 0 && cs[0] == '-';
    let start: usize = if cs.len() > 0 && (cs[0] == '-' || cs[0] == '+') {
        1
    } else {
        0
    };
    let ghost body = spec_unsigned_part(s);
    assert(body == s.skip(start as int));
    if start >= cs.len() {
        return None;
    }
    let bound: i128 = 9223372036854775808;
    let mut acc: i128 = 0;
    let mut i: usize = start;
    while i < cs.len()
        invariant
            cs@ == s,
            s == text@,
            neg == (s.len() > 0 && s[0] == '-'),
            start <= i <= cs.len(),
            start < cs.len(),
            body == s.skip(start as int),
            body == spec_unsigned_part(s),
            0 <= acc <= bound,
            bound == 9223372036854775808,
            acc == spec_digits_value(body.take(i - start)),
            forall|j: int| 0 <= j < i - start ==> #[trigger] spec_digit(body[j]),
        decreases cs.len() - i,
    {
        let c = cs[i];
        if !('0' <= c && c <= '9') {
            assert(!spec_digit(body[i - start]));
            return None;
        }
        assert(body.take(i - start + 1).drop_last() == body.take(i - start));
        acc = acc * 10 + (c as u32 - '0' as u32) as i128;
        i += 1;
        if acc > bound {
            proof {
                if spec_all_digits(body) {
                    lemma_digits_value_grows(body, i - start);
                }
            }
            return None;
        }
    }
    assert(body.take(i - start) == body);
    if neg {
        Some((-acc) as i64)
    } else if acc <= 9223372036854775807 {
        Some(acc as i64)
    } else {
        None
    }
}

// ---------------------------------------------------------------- decoding

pub open spec fn spec_invalid_response(e: LarkCliError) -> bool {
    e is InvalidResponse
}

/// `ev` carries the fields of `raw` and the message text `text`.
pub open spec fn spec_decoded(ev: LarkEvent, raw: RawEnvelope, text: String) -> bool {
    &&& ev.event_id@ == raw.event_id@
    &&& ev.event_type@ == raw.event_type@
    &&& spec_parse_i64(raw.create_time@) == Some(ev.created_at_ms)
    &&& ev.message_id@ == raw.message_id@
    &&& ev.chat_id@ == raw.chat_id@
    &&& ev.sender_id@ == raw.sender_open_id@
    &&& ev.message_type@ == raw.message_type@
    &&& ev.thread_id == raw.thread_id
    &&& ev.text@ == text@
}

impl LarkEventDecoder {
    /// The first failing check of a decode, as whether it is a response
    /// fault (else a request fault) and its message.
    pub open spec fn spec_decode_fault(
        &self,
        line_len: nat,
        envelope: Option<RawEnvelope>,
        content_text: Option<String>,
    ) -> Option<(bool, Seq<char>)> {
        if line_len > self.spec_maximum_line_bytes() {
            Some((true, "event line exceeded its configured bound"@))
        } else {
            match envelope {
                None => Some((true, "event line was not valid JSON"@)),
                Some(raw) => if raw.event_type@ != "im.message.receive_v1"@ {
                    Some((true, "event type was not registered"@))
                } else {
                    match content_text {
                        None => Some((true, "message content was not valid text JSON"@)),
                        Some(t) => if encode_utf8(t@).len() > self.spec_maximum_text_bytes() {
                            Some((true, "message text exceeded its configured bound"@))
                        } else if raw.event_id@.len() == 0 {
                            Some((true, "event id was empty"@))
                        } else if spec_parse_i64(raw.create_time@) is None {
                            Some((true, "event create time was invalid"@))
                        } else if !spec_prefixed_id(raw.message_id@, "om_"@) {
                            Some((false, "invalid message_id"@))
                        } else if !spec_prefixed_id(raw.chat_id@, "oc_"@) {
                            Some((false, "invalid chat_id"@))
                        } else if !spec_prefixed_id(raw.sender_open_id@, "ou_"@) {
                            Some((false, "invalid open_id"@))
                        } else if raw.message_type@.len() == 0 {
                            Some((true, "message type was empty"@))
                        } else {
                            None
                        },
                    }
                },
            }
        }
    }

    /// Every check of a decode passes.
    pub open spec fn spec_decodable(
        &self,
        line_len: nat,
        envelope: Option<RawEnvelope>,
        content_text: Option<String>,
    ) -> bool {
        match (envelope, content_text) {
            (Some(raw), Some(t)) => {
                &&& line_len <= self.spec_maximum_line_bytes()
                &&& raw.event_type@ == "im.message.receive_v1"@
                &&& encode_utf8(t@).len() <= self.spec_maximum_text_bytes()
                &&& raw.event_id@.len() > 0
                &&& spec_parse_i64(raw.create_time@) is Some
                &&& spec_prefixed_id(raw.message_id@, "om_"@)
                &&& spec_prefixed_id(raw.chat_id@, "oc_"@)
                &&& spec_prefixed_id(raw.sender_open_id@, "ou_"@)
                &&& raw.message_type@.len() > 0
            },
            _ => false,
        }
    }

    pub fn new(maximum_line_bytes: usize, maximum_text_bytes: usize) -> (r: Self)
        ensures
            r.spec_maximum_line_bytes() == maximum_line_bytes,
            r.spec_maximum_text_bytes() == maximum_text_bytes,
    {
        LarkEventDecoder { maximum_line_bytes, maximum_text_bytes }
    }

    pub closed spec fn spec_maximum_line_bytes(&self) -> usize {
        self.maximum_line_bytes
    }

    pub closed spec fn spec_maximum_text_bytes(&self) -> usize {
        self.maximum_text_bytes
    }

    pub fn maximum_line_bytes(&self) -> (r: usize)
        ensures
            r == self.spec_maximum_line_bytes(),
    {
        self.maximum_line_bytes
    }

    /// Decodes one event `line`, given what its JSON parsed
    /// to (`None`: not a valid envelope) and the text that the message content
    /// parsed to (`None`: not valid text JSON). The checks run in order: line
    /// bound, envelope, event type, content, text bound, then each field.
    pub fn decode(
        &self,
        line: &[u8],
        envelope: Option<RawEnvelope>,
        content_text: Option<String>,
    ) -> (r: Result<LarkEvent, LarkCliError>)
        ensures
            line@.len() > self.spec_maximum_line_bytes() ==> (r matches Err(e) && spec_invalid_response(e)),
            envelope is None ==> r is Err,
            r is Ok <==> self.spec_decodable(line@.len(), envelope, content_text),
            match (r, envelope, content_text) {
                (Ok(ev), Some(raw), Some(t)) => spec_decoded(ev, raw, t),
                _ => true,
            },
            match self.spec_decode_fault(line@.len(), envelope, content_text) {
                Some((true, m)) => r matches Err(LarkCliError::InvalidResponse { message }) && message@ == m,
                Some((false, m)) => r matches Err(LarkCliError::InvalidRequest { message }) && message@ == m,
                None => r is Ok,
            },
    {
        if line.len() > self.maximum_line_bytes {
            return Err(LarkCliError::InvalidResponse { message: owned("event line exceeded its configured bound") });
        }
        let raw = match envelope {
            Some(raw) => raw,
            None => return Err(LarkCliError::InvalidResponse { message: owned("event line was not valid JSON") }),
        };
        proof {
            reveal_strlit("im.message.receive_v1");
        }
        if !str_eq(raw.event_type.as_str(), "im.message.receive_v1") {
            return Err(LarkCliError::InvalidResponse { message: owned("event type was not registered") });
        }
        let text = match content_text {
            Some(t) => t,
            None => return Err(LarkCliError::InvalidResponse { message: owned("message content was not valid text JSON") }),
        };
        if text.as_str().as_bytes_vec().len() > self.maximum_text_bytes {
            return Err(LarkCliError::InvalidResponse { message: owned("message text exceeded its configured bound") });
        }
        if chars_of(raw.event_id.as_str()).len() == 0 {
            return Err(LarkCliError::InvalidResponse { message: owned("event id was empty") });
        }
        let created_at_ms = match parse_i64(raw.create_time.as_str()) {
            Some(v) => v,
            None => return Err(LarkCliError::InvalidResponse { message: owned("event create time was invalid") }),
        };
        let message_id = MessageId::parse(raw.message_id)?;
        let chat_id = ChatId::parse(raw.chat_id)?;
        let sender_id = OpenId::parse(raw.sender_open_id)?;
        if chars_of(raw.message_type.as_str()).len() == 0 {
            return Err(LarkCliError::InvalidResponse { message: owned("message type was empty") });
        }
        Ok(LarkEvent {
            event_id: raw.event_id,
            event_type: raw.event_type,
            created_at_ms,
            message_id,
            chat_id,
            thread_id: raw.thread_id,
            sender_id,
            message_type: raw.message_type,
            text,
        })
    }
}

} // verus!
