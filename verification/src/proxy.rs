//! The ranking service hands authentication requests on to the
//! authentication service. This module decides where a request goes and how
//! the answer is relayed; sending and receiving is the caller's part.

use vstd::prelude::*;
use vstd::string::*;
use crate::error::Response;
use crate::text::same_text;

verus! {

/// What to do with a request to the authentication gateway.
#[derive(Debug)]
pub enum ProxyPlan {
    /// Answer with the request's own body.
    Mirror,
    /// Post the request's body, as JSON, to `url`.
    ForwardBody { url: String },
    /// Post to `url` under the request's `Authorization` header.
    ForwardAuthorization { url: String },
    /// Answer 401: the request needs an `Authorization` header and has
    /// none.
    MissingAuthorization,
    /// Answer 404: there is no such mode.
    NotFound,
}

/// Whether `mode` is open to clients without a session.
pub open spec fn is_anonymous_mode(mode: Seq<char>) -> bool {
    mode == "sign_in"@ || mode == "sign_up"@
}

/// Whether `mode` acts on a session.
pub open spec fn is_user_mode(mode: Seq<char>) -> bool {
    mode == "sign_in_token_refresh"@ || mode == "sign_out"@ || mode == "get"@
}

/// Whether `plan` is what the gateway does with a request in `mode`, with
/// or without an `Authorization` header, the authentication service being
/// at `auth_url`. The mirror comes first, then the anonymous modes, then
/// the user modes.
pub open spec fn plans(plan: ProxyPlan, auth_url: Seq<char>, mode: Seq<char>, has_authorization: bool) -> bool {
    if mode == "mirror"@ {
        plan is Mirror
    } else if is_anonymous_mode(mode) {
        plan matches ProxyPlan::ForwardBody { url } && url@ == auth_url + "/anonymous/"@ + mode
    } else if is_user_mode(mode) {
        if has_authorization {
            plan matches ProxyPlan::ForwardAuthorization { url } && url@ == auth_url + "/user/"@
                + mode
        } else {
            plan is MissingAuthorization
        }
    } else {
        plan is NotFound
    }
}

fn endpoint(auth_url: &str, segment: &str, mode: &str) -> (url: String)
    ensures
        url@ == auth_url@ + segment@ + mode@,
{
    let mut url = String::from_str(auth_url);
    url.append(segment);
    url.append(mode);
    url
}

/// Decides what the gateway does with a request in `mode`.
pub fn plan_request(auth_url: &str, mode: &str, has_authorization: bool) -> (plan: ProxyPlan)
    ensures
        plans(plan, auth_url@, mode@, has_authorization),
{
    if same_text(mode, "mirror") {
        ProxyPlan::Mirror
    } else if same_text(mode, "sign_in") || same_text(mode, "sign_up") {
        ProxyPlan::ForwardBody { url: endpoint(auth_url, "/anonymous/", mode) }
    } else if same_text(mode, "sign_in_token_refresh") || same_text(mode, "sign_out") || same_text(
        mode,
        "get",
    ) {
        if has_authorization {
            ProxyPlan::ForwardAuthorization { url: endpoint(auth_url, "/user/", mode) }
        } else {
            ProxyPlan::MissingAuthorization
        }
    } else {
        ProxyPlan::NotFound
    }
}

/// The status under which an answer of the authentication service is
/// relayed: 200, 401 and 500 as they are, every other as 400.
pub open spec fn relayed_status(status: int) -> int {
    if status == 200 || status == 401 || status == 500 {
        status
    } else {
        400
    }
}

/// The body under which an answer is relayed: its own where the status is
/// relayed as it is, and otherwise a line that names the status.
pub open spec fn relayed_body(status: int, status_text: Seq<char>, body: Seq<char>) -> Seq<char> {
    if status == 200 || status == 401 || status == 500 {
        body
    } else {
        "Status: "@ + status_text + " = "@ + body
    }
}

/// Relays an answer of the authentication service. `status_text` is the
/// status as it is written in the relayed body.
pub fn relay(status: u16, status_text: &str, body: String) -> (r: Response)
    ensures
        r.status == relayed_status(status as int),
        r.body@ == relayed_body(status as int, status_text@, body@),
{
    if status == 200 || status == 401 || status == 500 {
        Response { status, body }
    } else {
        let mut line = String::from_str("Status: ");
        line.append(status_text);
        line.append(" = ");
        line.append(body.as_str());
        Response { status: 400, body: line }
    }
}

} // verus!
