use codex_workflow::integrations::lark::cli::LarkCliVersion;
use codex_workflow::integrations::lark::documents::fetch_args;
use codex_workflow::integrations::lark::documents::search_args;
use codex_workflow::integrations::lark::error::LarkCliError;
use codex_workflow::integrations::lark::events::parse_i64;
use codex_workflow::integrations::lark::events::LarkEventDecoder;
use codex_workflow::integrations::lark::events::RawEnvelope;
use codex_workflow::integrations::lark::identity::ChatId;
use codex_workflow::integrations::lark::identity::LarkIdentity;
use codex_workflow::integrations::lark::identity::OpenId;
use codex_workflow::integrations::lark::identity::ThreadId;
use codex_workflow::integrations::lark::paging::PageCursor;
use codex_workflow::integrations::lark::paging::PageFault;
use codex_workflow::integrations::lark::paging::MAX_PAGES;
use codex_workflow::integrations::lark::subscriber::subscriber_args;
use codex_workflow::integrations::lark::subscriber::LineFramer;

#[test]
fn only_lark_cli_one_zero_zero_is_accepted() {
    let version = LarkCliVersion::parse(b"lark-cli version 1.0.0\n").unwrap();
    assert_eq!(version.as_version().major, 1);
    assert_eq!(
        LarkCliVersion::parse(b"lark-cli version 1.0.0+build").err(),
        Some(LarkCliError::UnsupportedVersion { actual: "1.0.0+build".to_string() })
    );
    assert_eq!(
        LarkCliVersion::parse(b"lark-cli version 1.2.3-beta.1").err(),
        Some(LarkCliError::UnsupportedVersion { actual: "1.2.3-beta.1".to_string() })
    );
    assert_eq!(LarkCliVersion::parse(b"lark 1.0.0").err(), Some(LarkCliError::MalformedVersion));
    assert_eq!(LarkCliVersion::parse(b"lark-cli version one").err(), Some(LarkCliError::MalformedVersion));
}

#[test]
fn identifiers_need_their_prefix_and_a_word_suffix() {
    assert_eq!(OpenId::parse("ou_abc_123".to_string()).unwrap().as_str(), "ou_abc_123");
    assert_eq!(
        OpenId::parse("ou_".to_string()).err(),
        Some(LarkCliError::InvalidRequest { message: "invalid open_id".to_string() })
    );
    assert_eq!(
        ChatId::parse("ou_abc".to_string()).err(),
        Some(LarkCliError::InvalidRequest { message: "invalid chat_id".to_string() })
    );
    assert!(ChatId::parse("oc_a-b".to_string()).is_err());
}

#[test]
fn fetch_arguments_name_identity_and_document() {
    assert_eq!(
        fetch_args(LarkIdentity::User, "doc1"),
        vec!["docs", "+fetch", "--as", "user", "--doc", "doc1", "--format", "json"]
    );
    assert_eq!(subscriber_args(), vec!["event", "+subscribe", "--as", "bot", "--event-types", "im.message.receive_v1", "--quiet"]);
}

#[test]
fn paging_follows_fresh_tokens_only() {
    let mut cursor = PageCursor::new();
    assert_eq!(cursor.advance(true, Some("t1".to_string())), Ok(Some("t1".to_string())));
    assert_eq!(cursor.advance(true, Some("t2".to_string())), Ok(Some("t2".to_string())));
    assert_eq!(cursor.advance(true, Some("t1".to_string())), Err(PageFault::Looped));
    assert_eq!(cursor.followed(), 2);
    let mut missing = PageCursor::new();
    assert_eq!(missing.advance(true, None), Err(PageFault::MissingToken));
    assert_eq!(missing.advance(true, Some(String::new())), Err(PageFault::MissingToken));
    assert_eq!(missing.advance(false, None), Ok(None));
    let mut long = PageCursor::new();
    let mut last = Ok(None);
    for page in 0..MAX_PAGES {
        last = long.advance(true, Some(format!("p{page}")));
        if last.is_err() {
            break;
        }
    }
    assert_eq!(last, Err(PageFault::LimitExceeded));
}

#[test]
fn line_framer_drops_overlong_lines_whole() {
    let mut framer = LineFramer::new(4);
    let mut lines = Vec::new();
    for byte in b"ab\n\nabcdefg\nxyz\n".iter() {
        if let Some(line) = framer.push(*byte) {
            lines.push(line);
        }
    }
    assert_eq!(lines, vec![b"ab".to_vec(), b"xyz".to_vec()]);
}

fn envelope(event_type: &str, create_time: &str) -> RawEnvelope {
    RawEnvelope {
        event_id: "ev1".to_string(),
        event_type: event_type.to_string(),
        create_time: create_time.to_string(),
        chat_id: "oc_chat".to_string(),
        content: "{\"text\":\"hi\"}".to_string(),
        message_id: "om_msg".to_string(),
        message_type: "text".to_string(),
        thread_id: None,
        sender_open_id: "ou_sender".to_string(),
    }
}

#[test]
fn events_are_decoded_strictly() {
    let decoder = LarkEventDecoder::new(1024, 8);
    let event = decoder
        .decode(b"{}", Some(envelope("im.message.receive_v1", "1700000000000")), Some("hi".to_string()))
        .unwrap();
    assert_eq!(event.created_at_ms, 1_700_000_000_000);
    assert_eq!(event.chat_id.as_str(), "oc_chat");
    assert_eq!(event.text, "hi");
    let invalid = |m: &str| Err(LarkCliError::InvalidResponse { message: m.to_string() });
    assert_eq!(
        decoder.decode(&[b' '; 1025], None, None),
        invalid("event line exceeded its configured bound")
    );
    assert_eq!(decoder.decode(b"x", None, None), invalid("event line was not valid JSON"));
    assert_eq!(
        decoder.decode(b"{}", Some(envelope("other", "1")), Some("hi".to_string())),
        invalid("event type was not registered")
    );
    assert_eq!(
        decoder.decode(b"{}", Some(envelope("im.message.receive_v1", "1")), None),
        invalid("message content was not valid text JSON")
    );
    assert_eq!(
        decoder.decode(b"{}", Some(envelope("im.message.receive_v1", "1")), Some("123456789".to_string())),
        invalid("message text exceeded its configured bound")
    );
    assert_eq!(
        decoder.decode(b"{}", Some(envelope("im.message.receive_v1", "soon")), Some("hi".to_string())),
        invalid("event create time was invalid")
    );
}

#[test]
fn integers_parse_like_std() {
    assert_eq!(parse_i64("42"), Some(42));
    assert_eq!(parse_i64("-7"), Some(-7));
    assert_eq!(parse_i64("+7"), Some(7));
    assert_eq!(parse_i64("9223372036854775807"), Some(i64::MAX));
    assert_eq!(parse_i64("-9223372036854775808"), Some(i64::MIN));
    assert_eq!(parse_i64("9223372036854775808"), None);
    assert_eq!(parse_i64(""), None);
    assert_eq!(parse_i64("-"), None);
    assert_eq!(parse_i64("1a"), None);
}

#[test]
fn document_search_pages_by_token() {
    let first: Vec<String> = search_args(LarkIdentity::User, "Plan", &None);
    assert_eq!(
        first,
        ["docs", "+search", "--as", "user", "--query", "Plan", "--page-size", "20", "--format", "json"]
            .map(String::from)
            .to_vec()
    );
    let next = search_args(LarkIdentity::User, "Plan", &Some("t2".to_string()));
    assert_eq!(next[8..10].to_vec(), vec!["--page-token".to_string(), "t2".to_string()]);
    assert_eq!(next.len(), 12);
}

#[test]
fn thread_ids_read_back_and_parse_again() {
    for text in ["om_abc", "omt_7_x"] {
        let id = ThreadId::parse(text.to_string()).unwrap();
        assert_eq!(id.as_str(), text);
        let again = ThreadId::parse(id.as_str().to_string()).unwrap();
        assert_eq!(again, id.clone());
        assert_eq!(String::from(id), text.to_string());
    }
    assert_eq!(
        ThreadId::parse("omt_".to_string()).err(),
        Some(LarkCliError::InvalidRequest { message: "invalid thread_id".to_string() })
    );
    assert!(ThreadId::parse("om-abc".to_string()).is_err());
}
