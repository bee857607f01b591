//! Document fetch, create, update and create-reconciliation against the
//! pinned `lark-cli` profile: request checks, argument vectors, and the
//! decisions taken on what the CLI reports.
use vstd::prelude::*;

use crate::args::push_arg;
use crate::args::push_option;
use crate::args::spec_option;

use crate::text::spec_opt_str;

use crate::integrations::fornax::redaction::replace_all;
use crate::integrations::fornax::redaction::spec_replace;
use crate::integrations::lark::error::invalid;
use crate::integrations::lark::error::LarkCliError;
use crate::integrations::lark::identity::LarkIdentity;
use crate::integrations::lark::listing::spec_invalid_request;
use crate::integrations::lark::listing::spec_response_error;
use crate::integrations::lark::types::ContentSensitivity;
use crate::integrations::lark::types::DocumentCreateRequest;
use crate::integrations::lark::types::DocumentMatch;
use crate::integrations::lark::types::DocumentParent;
use crate::integrations::lark::types::DocumentRecord;
use crate::integrations::lark::types::DocumentSelection;
use crate::integrations::lark::types::DocumentSnapshot;
use crate::integrations::lark::types::DocumentUpdateMode;
use crate::integrations::lark::types::DocumentUpdateRequest;
use crate::integrations::lark::types::spec_mode_name;
use crate::runtime::document_update::content_sha256;
use crate::runtime::document_update::spec_content_sha256;
use crate::runtime::document_update::spec_valid_sha256;
use crate::text::chars_of;
use crate::text::is_blank;
use crate::text::owned;
use crate::text::spec_blank;
use crate::text::str_eq;
use crate::text::string_of;
use crate::text::spec_lower_hex;

verus! {

pub open spec fn spec_strs(v: Seq<String>) -> Seq<Seq<char>> {
    v.map_values(|s: String| s@)
}

/// A document to fetch must be named.
pub fn validate_fetch(document: &str) -> (r: Result<(), LarkCliError>)
    ensures
        r is Ok <==> !spec_blank(document@),
        r is Err ==> spec_invalid_request(r->Err_0, "document identity must not be empty"@),
{
    if is_blank(document) {
        return Err(invalid("document identity must not be empty"));
    }
    Ok(())
}

/// `docs +fetch --as <identity> --doc <document> --format json`.
pub fn fetch_args(identity: LarkIdentity, document: &str) -> (r: Vec<String>)
    ensures
        spec_strs(r@) == seq!["docs"@, "+fetch"@, "--as"@, (if identity == LarkIdentity::User { "user"@ } else { "bot"@ }), "--doc"@, document@, "--format"@, "json"@],
{
    let mut a: Vec<String> = Vec::new();
    push_arg(&mut a, "docs");
    push_arg(&mut a, "+fetch");
    push_arg(&mut a, "--as");
    push_arg(&mut a, identity.as_str());
    push_arg(&mut a, "--doc");
    push_arg(&mut a, document);
    push_arg(&mut a, "--format");
    push_arg(&mut a, "json");
    a
}

/// A document to create has argv-safe, non-empty content.
pub fn validate_create(request: &DocumentCreateRequest) -> (r: Result<(), LarkCliError>)
    ensures
        request.sensitivity == ContentSensitivity::Sensitive ==> r == Err::<(), LarkCliError>(
            LarkCliError::SensitiveArgv,
        ),
        request.sensitivity != ContentSensitivity::Sensitive && request.markdown@.len() == 0 ==> r is Err
            && spec_invalid_request(r->Err_0, "document markdown must not be empty"@),
        r is Ok <==> request.sensitivity != ContentSensitivity::Sensitive && request.markdown@.len() > 0,
{
    request.sensitivity.require_argv_safe()?;
    if chars_of(request.markdown.as_str()).len() == 0 {
        return Err(invalid("document markdown must not be empty"));
    }
    Ok(())
}

pub open spec fn spec_parent_args(parent: Option<DocumentParent>) -> Seq<Seq<char>> {
    match parent {
        Some(DocumentParent::Folder(v)) => seq!["--folder-token"@, v@],
        Some(DocumentParent::WikiNode(v)) => seq!["--wiki-node"@, v@],
        Some(DocumentParent::WikiSpace(v)) => seq!["--wiki-space"@, v@],
        None => Seq::empty(),
    }
}

/// `docs +create` with the markdown, then the optional title and parent.
pub fn create_args(request: &DocumentCreateRequest) -> (r: Vec<String>)
    ensures
        spec_strs(r@) == seq!["docs"@, "+create"@, "--as"@, (if request.identity == LarkIdentity::User { "user"@ } else { "bot"@ }), "--markdown"@, request.markdown@]
            + spec_option("--title"@, spec_opt_str(request.title)) + spec_parent_args(request.parent)
            + seq!["--format"@, "json"@],
{
    let mut a: Vec<String> = Vec::new();
    push_arg(&mut a, "docs");
    push_arg(&mut a, "+create");
    push_arg(&mut a, "--as");
    push_arg(&mut a, request.identity.as_str());
    push_arg(&mut a, "--markdown");
    push_arg(&mut a, request.markdown.as_str());
    let ghost head = spec_strs(a@);
    push_option(&mut a, "--title", &request.title);
    let ghost with_title = spec_strs(a@);
    match &request.parent {
        Some(DocumentParent::Folder(v)) => {
            push_arg(&mut a, "--folder-token");
            push_arg(&mut a, v.as_str());
        },
        Some(DocumentParent::WikiNode(v)) => {
            push_arg(&mut a, "--wiki-node");
            push_arg(&mut a, v.as_str());
        },
        Some(DocumentParent::WikiSpace(v)) => {
            push_arg(&mut a, "--wiki-space");
            push_arg(&mut a, v.as_str());
        },
        None => {},
    }
    assert(spec_strs(a@) =~= with_title + spec_parent_args(request.parent));
    let ghost with_parent = spec_strs(a@);
    push_arg(&mut a, "--format");
    push_arg(&mut a, "json");
    assert(spec_strs(a@) =~= with_parent + seq!["--format"@, "json"@]);
    a
}

/// After a create, the document read back must be the one created, with the
/// requested content and a revision; otherwise the create is ambiguous.
pub fn verify_created(
    doc_id: String,
    doc_url: String,
    message: String,
    markdown: &str,
    snapshot: DocumentSnapshot,
) -> (r: Result<DocumentRecord, LarkCliError>)
    ensures
        (snapshot.doc_id@ == doc_id@ && snapshot.doc_url@ == doc_url@ && snapshot.markdown@ == markdown@
            && !spec_blank(snapshot.revision_id@)) ==> r == Ok::<DocumentRecord, LarkCliError>(
            DocumentRecord { doc_id, doc_url, revision_id: snapshot.revision_id, message },
        ),
        !(snapshot.doc_id@ == doc_id@ && snapshot.doc_url@ == doc_url@ && snapshot.markdown@ == markdown@
            && !spec_blank(snapshot.revision_id@)) ==> r == Err::<DocumentRecord, LarkCliError>(
            LarkCliError::AmbiguousMutation,
        ),
{
    if !str_eq(snapshot.doc_id.as_str(), doc_id.as_str()) || !str_eq(snapshot.doc_url.as_str(), doc_url.as_str())
        || !str_eq(snapshot.markdown.as_str(), markdown) || is_blank(snapshot.revision_id.as_str()) {
        return Err(LarkCliError::AmbiguousMutation);
    }
    Ok(DocumentRecord { doc_id, doc_url, revision_id: snapshot.revision_id, message })
}

pub open spec fn spec_needs_selection(mode: DocumentUpdateMode) -> bool {
    mode == DocumentUpdateMode::ReplaceRange || mode == DocumentUpdateMode::ReplaceAll || mode
        == DocumentUpdateMode::InsertBefore || mode == DocumentUpdateMode::InsertAfter || mode
        == DocumentUpdateMode::DeleteRange
}

/// An update is argv-safe, names its document, carries markdown unless it
/// deletes a range, and has a selection exactly when its mode needs one.
pub fn validate_update(request: &DocumentUpdateRequest) -> (r: Result<(), LarkCliError>)
    ensures
        request.sensitivity == ContentSensitivity::Sensitive ==> r == Err::<(), LarkCliError>(
            LarkCliError::SensitiveArgv,
        ),
        request.sensitivity != ContentSensitivity::Sensitive && spec_blank(request.document@) ==> r is Err
            && spec_invalid_request(r->Err_0, "document identity must not be empty"@),
        request.sensitivity != ContentSensitivity::Sensitive && !spec_blank(request.document@) && (
        (request.mode != DocumentUpdateMode::DeleteRange) != request.markdown is Some) ==> r is Err
            && spec_invalid_request(
            r->Err_0,
            "markdown is required except for delete_range, where it is forbidden"@,
        ),
        request.sensitivity != ContentSensitivity::Sensitive && !spec_blank(request.document@) && (
        (request.mode != DocumentUpdateMode::DeleteRange) == request.markdown is Some) && spec_needs_selection(
            request.mode,
        ) != request.selection is Some ==> r is Err && spec_invalid_request(
            r->Err_0,
            "update mode has an invalid selection"@,
        ),
        r is Ok <==> request.sensitivity != ContentSensitivity::Sensitive && !spec_blank(request.document@)
            && ((request.mode != DocumentUpdateMode::DeleteRange) == request.markdown is Some)
            && spec_needs_selection(request.mode) == request.selection is Some,
{
    request.sensitivity.require_argv_safe()?;
    if is_blank(request.document.as_str()) {
        return Err(invalid("document identity must not be empty"));
    }
    let needs_markdown = request.mode != DocumentUpdateMode::DeleteRange;
    if needs_markdown != request.markdown.is_some() {
        return Err(invalid("markdown is required except for delete_range, where it is forbidden"));
    }
    let needs_selection = match request.mode {
        DocumentUpdateMode::ReplaceRange | DocumentUpdateMode::ReplaceAll
        | DocumentUpdateMode::InsertBefore | DocumentUpdateMode::InsertAfter
        | DocumentUpdateMode::DeleteRange => true,
        _ => false,
    };
    if needs_selection != request.selection.is_some() {
        return Err(invalid("update mode has an invalid selection"));
    }
    Ok(())
}

pub open spec fn spec_selection_args(selection: Option<DocumentSelection>) -> Seq<Seq<char>> {
    match selection {
        Some(DocumentSelection::Ellipsis(v)) => seq!["--selection-with-ellipsis"@, v@],
        Some(DocumentSelection::Title(v)) => seq!["--selection-by-title"@, v@],
        None => Seq::empty(),
    }
}

/// `docs +update` with the document and mode, then the optional markdown,
/// selection and new title.
pub fn update_args(request: &DocumentUpdateRequest) -> (r: Vec<String>)
    ensures
        spec_strs(r@) == seq!["docs"@, "+update"@, "--as"@, (if request.identity == LarkIdentity::User { "user"@ } else { "bot"@ }), "--doc"@, request.document@, "--mode"@, spec_mode_name(request.mode)]
            + spec_option("--markdown"@, spec_opt_str(request.markdown)) + spec_selection_args(request.selection)
            + spec_option("--new-title"@, spec_opt_str(request.new_title)) + seq!["--format"@, "json"@],
{
    let mut a: Vec<String> = Vec::new();
    push_arg(&mut a, "docs");
    push_arg(&mut a, "+update");
    push_arg(&mut a, "--as");
    push_arg(&mut a, request.identity.as_str());
    push_arg(&mut a, "--doc");
    push_arg(&mut a, request.document.as_str());
    push_arg(&mut a, "--mode");
    push_arg(&mut a, request.mode.as_str());
    push_option(&mut a, "--markdown", &request.markdown);
    let ghost with_markdown = spec_strs(a@);
    match &request.selection {
        Some(DocumentSelection::Ellipsis(v)) => {
            push_arg(&mut a, "--selection-with-ellipsis");
            push_arg(&mut a, v.as_str());
        },
        Some(DocumentSelection::Title(v)) => {
            push_arg(&mut a, "--selection-by-title");
            push_arg(&mut a, v.as_str());
        },
        None => {},
    }
    assert(spec_strs(a@) =~= with_markdown + spec_selection_args(request.selection));
    push_option(&mut a, "--new-title", &request.new_title);
    let ghost with_title = spec_strs(a@);
    push_arg(&mut a, "--format");
    push_arg(&mut a, "json");
    assert(spec_strs(a@) =~= with_title + seq!["--format"@, "json"@]);
    a
}

// ---------------------------------------------------------------- create reconciliation

/// A title without the search highlight tags `<h>`, `</h>`, `<hb>`, `</hb>`.
pub open spec fn spec_strip_highlights(v: Seq<char>) -> Seq<char> {
    spec_replace(spec_replace(spec_replace(spec_replace(v, "<h>"@, ""@), "</h>"@, ""@), "<hb>"@, ""@), "</hb>"@, ""@)
}

pub fn strip_search_highlights(value: &str) -> (r: String)
    ensures
        r@ == spec_strip_highlights(value@),
{
    proof {
        reveal_strlit("<h>");
        reveal_strlit("</h>");
        reveal_strlit("<hb>");
        reveal_strlit("</hb>");
        reveal_strlit("");
    }
    let empty = chars_of("");
    let a = replace_all(&chars_of(value), &chars_of("<h>"), &empty);
    let b = replace_all(&a, &chars_of("</h>"), &empty);
    let c = replace_all(&b, &chars_of("<hb>"), &empty);
    let d = replace_all(&c, &chars_of("</hb>"), &empty);
    string_of(&d)
}

/// A reconciliation searches as the user for a non-blank exact title and a
/// 64-digit lower-case digest.
pub fn validate_reconcile(identity: LarkIdentity, exact_title: &str, expected_sha256: &str) -> (r: Result<
    (),
    LarkCliError,
>)
    ensures
        identity != LarkIdentity::User ==> r is Err && spec_invalid_request(
            r->Err_0,
            "document search reconciliation requires user identity"@,
        ),
        identity == LarkIdentity::User && (spec_blank(exact_title@) || !spec_valid_sha256(expected_sha256@))
            ==> r is Err && spec_invalid_request(r->Err_0, "document reconciliation title or SHA-256 is invalid"@),
        r is Ok <==> identity == LarkIdentity::User && !spec_blank(exact_title@) && spec_valid_sha256(
            expected_sha256@,
        ),
{
    if identity != LarkIdentity::User {
        return Err(invalid("document search reconciliation requires user identity"));
    }
    let cs = chars_of(expected_sha256);
    let mut ok = cs.len() == 64;
    let mut i: usize = 0;
    while i < cs.len()
        invariant
            i <= cs.len(),
            cs@ == expected_sha256@,
            ok == (cs.len() == 64 && forall|j: int| 0 <= j < i ==> #[trigger] spec_lower_hex(cs@[j])),
        decreases cs.len() - i,
    {
        let c = cs[i];
        if !(('0' <= c && c <= '9') || ('a' <= c && c <= 'f')) {
            ok = false;
            assert(!spec_lower_hex(cs@[i as int]));
        }
        i += 1;
    }
    if is_blank(exact_title) || !ok {
        return Err(invalid("document reconciliation title or SHA-256 is invalid"));
    }
    Ok(())
}

/// `docs +search --as <identity> --query <title> --page-size 20`, the page
/// token where one continues the search, then `--format json`.
pub fn search_args(identity: LarkIdentity, exact_title: &str, page_token: &Option<String>) -> (r: Vec<String>)
    ensures
        spec_strs(r@) == seq![
            "docs"@,
            "+search"@,
            "--as"@,
            (if identity == LarkIdentity::User { "user"@ } else { "bot"@ }),
            "--query"@,
            exact_title@,
            "--page-size"@,
            "20"@,
        ] + spec_option("--page-token"@, spec_opt_str(*page_token)) + seq!["--format"@, "json"@],
{
    let mut a: Vec<String> = Vec::new();
    push_arg(&mut a, "docs");
    push_arg(&mut a, "+search");
    push_arg(&mut a, "--as");
    push_arg(&mut a, identity.as_str());
    push_arg(&mut a, "--query");
    push_arg(&mut a, exact_title);
    push_arg(&mut a, "--page-size");
    push_arg(&mut a, "20");
    push_option(&mut a, "--page-token", page_token);
    push_arg(&mut a, "--format");
    push_arg(&mut a, "json");
    a
}

/// A search result is a candidate when it is a DOCX whose title, without
/// highlights, is exactly the title searched for.
pub fn is_candidate(doc_types: &str, title_highlighted: &str, exact_title: &str) -> (r: bool)
    ensures
        r == (doc_types@ == "DOCX"@ && spec_strip_highlights(title_highlighted@) == exact_title@),
{
    str_eq(doc_types, "DOCX") && str_eq(strip_search_highlights(title_highlighted).as_str(), exact_title)
}

/// Each candidate URL must be non-blank and new.
pub fn check_candidate_url(seen_urls: &mut Vec<String>, url: &str) -> (r: Result<(), LarkCliError>)
    ensures
        (spec_blank(url@) || spec_strs(old(seen_urls)@).contains(url@)) ==> r is Err && spec_response_error(
            r->Err_0,
            "document search returned an empty or duplicate URL"@,
        ) && final(seen_urls)@ == old(seen_urls)@,
        !(spec_blank(url@) || spec_strs(old(seen_urls)@).contains(url@)) ==> r is Ok && spec_strs(final(seen_urls)@)
            == spec_strs(old(seen_urls)@).push(url@),
{
    if is_blank(url) {
        return Err(LarkCliError::InvalidResponse { message: owned("document search returned an empty or duplicate URL") });
    }
    let mut i: usize = 0;
    while i < seen_urls.len()
        invariant
            i <= seen_urls.len(),
            seen_urls@ == old(seen_urls)@,
            forall|j: int| 0 <= j < i ==> seen_urls@[j]@ != url@,
        decreases seen_urls.len() - i,
    {
        if str_eq(seen_urls[i].as_str(), url) {
            assert(spec_strs(seen_urls@)[i as int] == url@);
            return Err(LarkCliError::InvalidResponse { message: owned("document search returned an empty or duplicate URL") });
        }
        i += 1;
    }
    assert(!spec_strs(old(seen_urls)@).contains(url@)) by {
        if spec_strs(old(seen_urls)@).contains(url@) {
            let j = choose|j: int| 0 <= j < spec_strs(old(seen_urls)@).len() && spec_strs(old(seen_urls)@)[j] == url@;
            assert(old(seen_urls)@[j]@ == url@);
        }
    }
    push_arg(seen_urls, url);
    Ok(())
}

/// A fetched candidate matches when its body has the expected digest.
pub fn body_matches(snapshot: &DocumentSnapshot, expected_sha256: &str) -> (r: bool)
    ensures
        r == (spec_content_sha256(snapshot.markdown@) == expected_sha256@),
{
    str_eq(content_sha256(snapshot.markdown.as_str()).as_str(), expected_sha256)
}

/// No document, exactly one, or several.
pub fn document_match(documents: Vec<DocumentSnapshot>) -> (r: DocumentMatch)
    ensures
        documents@.len() == 0 ==> r == DocumentMatch::Missing,
        documents@.len() == 1 ==> r == DocumentMatch::Found(documents@[0]),
        documents@.len() > 1 ==> r == DocumentMatch::Ambiguous(documents),
{
    if documents.len() == 0 {
        DocumentMatch::Missing
    } else if documents.len() == 1 {
        let mut documents = documents;
        let d = documents.remove(0);
        DocumentMatch::Found(d)
    } else {
        DocumentMatch::Ambiguous(documents)
    }
}

} // verus!
