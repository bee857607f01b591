//! The argument vectors of chat search, chat creation and user search.
use vstd::prelude::*;

use crate::args::join_commas;
use crate::args::push_arg;
use crate::args::push_flag;
use crate::args::push_option;
use crate::args::spec_join_commas;
use crate::args::spec_option;
use crate::integrations::lark::error::LarkCliError;
use crate::integrations::lark::identity::LarkIdentity;
use crate::integrations::lark::identity::OpenId;
use crate::integrations::lark::listing::validate_chat_create;
use crate::integrations::lark::listing::validate_chat_search;
use crate::integrations::lark::listing::validate_user_search;
use crate::integrations::lark::listing::spec_invalid_request;
use crate::integrations::lark::listing::spec_search_needs_subject;
use crate::integrations::lark::types::ContentSensitivity;
use crate::text::spec_blank;
use crate::integrations::lark::messages::LarkInvocation;
use crate::integrations::lark::types::ChatCreateRequest;
use crate::integrations::lark::types::ChatSearchRequest;
use crate::integrations::lark::types::UserSearchRequest;
use crate::integrations::version::decimal_u64;
use crate::integrations::version::spec_decimal;
use crate::text::spec_opt_str;
use crate::text::spec_strs;

verus! {

pub open spec fn spec_identity(identity: LarkIdentity) -> Seq<char> {
    match identity {
        LarkIdentity::User => "user"@,
        LarkIdentity::Bot => "bot"@,
    }
}

pub open spec fn spec_ids(ids: Seq<OpenId>) -> Seq<Seq<char>> {
    ids.map_values(|id: OpenId| id.view())
}

pub open spec fn spec_chat_search_args(r: ChatSearchRequest) -> Seq<Seq<char>> {
    seq!["im"@, "+chat-search"@, "--as"@, spec_identity(r.identity)] + spec_option("--query"@, spec_opt_str(r.query))
        + (if r.member_ids@.len() > 0 {
        seq!["--member-ids"@, spec_join_commas(spec_ids(r.member_ids@))]
    } else {
        Seq::empty()
    }) + (if r.managed_only {
        seq!["--is-manager"@]
    } else {
        Seq::empty()
    }) + seq!["--page-size"@, spec_decimal(r.page_size as nat)] + spec_option("--page-token"@, spec_opt_str(r.page_token))
        + seq!["--format"@, "json"@]
}

fn id_texts(ids: &Vec<OpenId>) -> (r: Vec<String>)
    ensures
        spec_strs(r@) == spec_ids(ids@),
{
    let mut out: Vec<String> = Vec::new();
    let mut i: usize = 0;
    while i < ids.len()
        invariant
            i <= ids@.len(),
            spec_strs(out@) == spec_ids(ids@.take(i as int)),
        decreases ids.len() - i,
    {
        out.push(crate::text::owned(ids[i].as_str()));
        assert(spec_ids(ids@.take(i + 1)) =~= spec_ids(ids@.take(i as int)).push(ids@[i as int].view()));
        assert(spec_strs(out@) =~= spec_strs(out@.drop_last()).push(out@.last()@));
        i += 1;
    }
    assert(ids@.take(ids@.len() as int) =~= ids@);
    out
}

/// `im +chat-search`, after the request's checks.
pub fn chat_search_args(request: &ChatSearchRequest) -> (r: Result<Vec<String>, LarkCliError>)
    ensures
        spec_search_needs_subject(*request) ==> r is Err && spec_invalid_request(
            r->Err_0,
            "chat search needs a query or member IDs"@,
        ),
        !spec_search_needs_subject(*request) && !(1 <= request.page_size <= 100) ==> r is Err && spec_invalid_request(
            r->Err_0,
            "chat page size must be between 1 and 100"@,
        ),
        r is Ok <==> !spec_search_needs_subject(*request) && 1 <= request.page_size <= 100,
        r matches Ok(a) ==> spec_strs(a@) == spec_chat_search_args(*request),
{
    match validate_chat_search(request) {
        Ok(()) => {},
        Err(e) => {
            return Err(e);
        },
    }
    let mut args: Vec<String> = Vec::new();
    push_arg(&mut args, "im");
    push_arg(&mut args, "+chat-search");
    push_flag(&mut args, "--as", request.identity.as_str());
    push_option(&mut args, "--query", &request.query);
    let ghost a1 = spec_strs(args@);
    if request.member_ids.len() > 0 {
        let members = join_commas(&id_texts(&request.member_ids));
        push_flag(&mut args, "--member-ids", members.as_str());
    }
    assert(spec_strs(args@) =~= a1 + (if request.member_ids@.len() > 0 {
        seq!["--member-ids"@, spec_join_commas(spec_ids(request.member_ids@))]
    } else {
        Seq::<Seq<char>>::empty()
    }));
    let ghost a2 = spec_strs(args@);
    if request.managed_only {
        push_arg(&mut args, "--is-manager");
    }
    assert(spec_strs(args@) =~= a2 + (if request.managed_only {
        seq!["--is-manager"@]
    } else {
        Seq::<Seq<char>>::empty()
    }));
    let size = decimal_u64(request.page_size as u64);
    push_flag(&mut args, "--page-size", size.as_str());
    push_option(&mut args, "--page-token", &request.page_token);
    push_flag(&mut args, "--format", "json");
    assert(spec_strs(args@) =~= spec_chat_search_args(*request));
    Ok(args)
}

pub open spec fn spec_chat_create_args(r: ChatCreateRequest) -> Seq<Seq<char>> {
    seq!["im"@, "+chat-create"@, "--as"@, "bot"@, "--name"@, r.name@, "--type"@, if r.public {
        "public"@
    } else {
        "private"@
    }] + spec_option("--description"@, spec_opt_str(r.description)) + spec_option(
        "--users"@,
        match r.current_user {
            Some(u) => Some(u.view()),
            None => None,
        },
    ) + seq!["--format"@, "json"@]
}

/// `im +chat-create --as bot`, after the request's checks; the name and the
/// description are redacted from diagnostics.
pub fn chat_create_invocation(request: &ChatCreateRequest) -> (r: Result<LarkInvocation, LarkCliError>)
    ensures
        request.sensitivity == ContentSensitivity::Sensitive ==> r == Err::<LarkInvocation, LarkCliError>(
            LarkCliError::SensitiveArgv,
        ),
        request.sensitivity != ContentSensitivity::Sensitive && (request.name@.len() == 0
            || request.name@.len() > 60) ==> r is Err && spec_invalid_request(r->Err_0, "chat name must contain 1 to 60 characters"@),
        request.sensitivity != ContentSensitivity::Sensitive && !(request.name@.len() == 0
            || request.name@.len() > 60) && (request.description matches Some(d) && d@.len() > 100)
            ==> r is Err && spec_invalid_request(r->Err_0, "chat description must not exceed 100 characters"@),
        r is Ok <==> request.sensitivity != ContentSensitivity::Sensitive && 1 <= request.name@.len()
            <= 60 && !(request.description matches Some(d) && d@.len() > 100),
        r matches Ok(inv) ==> spec_strs(inv.args@) == spec_chat_create_args(*request) && spec_strs(inv.redactions@)
            == seq![request.name@] + match request.description {
            Some(d) => seq![d@],
            None => Seq::<Seq<char>>::empty(),
        },
{
    match validate_chat_create(request) {
        Ok(()) => {},
        Err(e) => {
            return Err(e);
        },
    }
    let mut args: Vec<String> = Vec::new();
    push_arg(&mut args, "im");
    push_arg(&mut args, "+chat-create");
    push_flag(&mut args, "--as", "bot");
    push_flag(&mut args, "--name", request.name.as_str());
    push_flag(&mut args, "--type", if request.public { "public" } else { "private" });
    push_option(&mut args, "--description", &request.description);
    let ghost a1 = spec_strs(args@);
    match &request.current_user {
        Some(u) => push_flag(&mut args, "--users", u.as_str()),
        None => {},
    }
    assert(spec_strs(args@) =~= a1 + spec_option(
        "--users"@,
        match request.current_user {
            Some(u) => Some(u.view()),
            None => None,
        },
    ));
    push_flag(&mut args, "--format", "json");
    assert(spec_strs(args@) =~= spec_chat_create_args(*request));
    let mut redactions: Vec<String> = Vec::new();
    redactions.push(request.name.clone());
    match &request.description {
        Some(d) => redactions.push(d.clone()),
        None => {},
    }
    assert(spec_strs(redactions@) =~= seq![request.name@] + match request.description {
        Some(d) => seq![d@],
        None => Seq::<Seq<char>>::empty(),
    });
    Ok(LarkInvocation { args, redactions })
}

pub open spec fn spec_user_search_args(r: UserSearchRequest, page_token: Option<Seq<char>>) -> Seq<Seq<char>> {
    seq![
        "contact"@,
        "+search-user"@,
        "--as"@,
        spec_identity(r.identity),
        "--query"@,
        r.query@,
        "--page-size"@,
        spec_decimal(r.page_size as nat),
    ] + spec_option("--page-token"@, page_token) + seq!["--format"@, "json"@]
}

/// `contact +search-user` for one page, after the request's checks.
pub fn user_search_args(request: &UserSearchRequest, page_token: &Option<String>) -> (r: Result<Vec<String>, LarkCliError>)
    ensures
        r is Ok <==> !spec_blank(request.query@) && 1 <= request.page_size <= 100,
        r is Err ==> spec_invalid_request(r->Err_0, "user search query or page size is invalid"@),
        r matches Ok(a) ==> spec_strs(a@) == spec_user_search_args(*request, spec_opt_str(*page_token)),
{
    match validate_user_search(request) {
        Ok(()) => {},
        Err(e) => {
            return Err(e);
        },
    }
    let mut args: Vec<String> = Vec::new();
    push_arg(&mut args, "contact");
    push_arg(&mut args, "+search-user");
    push_flag(&mut args, "--as", request.identity.as_str());
    push_flag(&mut args, "--query", request.query.as_str());
    let size = decimal_u64(request.page_size as u64);
    push_flag(&mut args, "--page-size", size.as_str());
    push_option(&mut args, "--page-token", page_token);
    push_flag(&mut args, "--format", "json");
    assert(spec_strs(args@) =~= spec_user_search_args(*request, spec_opt_str(*page_token)));
    Ok(args)
}

} // verus!
