use vstd::prelude::*;
use vstd::utf8::encode_utf8;

use crate::json::{json_string, json_string_literal};
use crate::text::{
    chars_of, contains_chars, lemma_occurs_in_context, contains_seq, decimal, matches_at, occurs_at, push_decimal,
    utf8_byte_count,
};

verus! {

/// The request that asks the local server whether it is alive.
pub open spec fn healthz_request_text() -> Seq<char> {
    "GET /healthz HTTP/1.1\r\nHost: 127.0.0.1\r\nConnection: close\r\n\r\n"@
}

/// The health probe's request.
pub fn healthz_request() -> (r: String)
    ensures
        r@ == healthz_request_text(),
{
    "GET /healthz HTTP/1.1\r\nHost: 127.0.0.1\r\nConnection: close\r\n\r\n".to_string()
}

/// A reply to the health probe counts as healthy when it mentions both `200`
/// and `ok`.
pub open spec fn healthy_reply(reply: Seq<char>) -> bool {
    contains_seq(reply, "200"@) && contains_seq(reply, "ok"@)
}

/// Whether the health probe's reply says that the server is up.
pub fn healthz_reply_ok(reply: &str) -> (b: bool)
    ensures
        b == healthy_reply(reply@),
{
    let chars = chars_of(reply);
    contains_chars(&chars, &chars_of("200")) && contains_chars(&chars, &chars_of("ok"))
}

/// What a check of a remembered password against the local server found.
#[derive(Clone, Copy, Debug, PartialEq, Eq)]
pub enum LoginCheck {
    /// The server accepted the password.
    Valid,
    /// The server refused it (the password was changed).
    Invalid,
    /// No usable answer came back.
    Unreachable,
}

/// How the reply to a login request is read: `HTTP/1.1 200` at its start is
/// success, ` 401 ` or ` 403 ` anywhere is a refusal, anything else (an
/// empty reply among them) counts as no answer.
pub open spec fn login_reply_check(reply: Seq<char>) -> LoginCheck {
    if occurs_at(reply, "HTTP/1.1 200"@, 0) {
        LoginCheck::Valid
    } else if contains_seq(reply, " 401 "@) || contains_seq(reply, " 403 "@) {
        LoginCheck::Invalid
    } else {
        LoginCheck::Unreachable
    }
}

/// Reads the server's reply to a login request.
pub fn classify_login_reply(reply: &str) -> (c: LoginCheck)
    ensures
        c == login_reply_check(reply@),
{
    let chars = chars_of(reply);
    if matches_at(&chars, &chars_of("HTTP/1.1 200"), 0) {
        LoginCheck::Valid
    } else if contains_chars(&chars, &chars_of(" 401 ")) || contains_chars(
        &chars,
        &chars_of(" 403 "),
    ) {
        LoginCheck::Invalid
    } else {
        LoginCheck::Unreachable
    }
}

/// A reply is healthy exactly when `200` stands somewhere in it and `ok`
/// stands somewhere in it, wherever that is: text put before or after a
/// healthy reply (headers, a body) leaves it healthy.
pub proof fn law_healthy_reply_anywhere(reply: Seq<char>, before: Seq<char>, after: Seq<char>)
    ensures
        healthy_reply(reply) <==> ((exists|i: int|
            0 <= i && i + 3 <= reply.len() && #[trigger] reply.skip(i).take(3) == "200"@) && (exists|
            j: int|
            0 <= j && j + 2 <= reply.len() && #[trigger] reply.skip(j).take(2) == "ok"@)),
        healthy_reply(reply) ==> healthy_reply(before + reply + after),
{
    reveal_strlit("200");
    reveal_strlit("ok");
    if healthy_reply(reply) {
        let i = choose|i: int| occurs_at(reply, "200"@, i);
        let j = choose|j: int| occurs_at(reply, "ok"@, j);
        assert(reply.skip(i).take(3) =~= reply.subrange(i, i + 3));
        assert(reply.skip(j).take(2) =~= reply.subrange(j, j + 2));
        lemma_occurs_in_context(before, reply, after, "200"@, i);
        lemma_occurs_in_context(before, reply, after, "ok"@, j);
    }
    if (exists|i: int| 0 <= i && i + 3 <= reply.len() && #[trigger] reply.skip(i).take(3) == "200"@)
        && (exists|j: int|
        0 <= j && j + 2 <= reply.len() && #[trigger] reply.skip(j).take(2) == "ok"@) {
        let i = choose|i: int|
            0 <= i && i + 3 <= reply.len() && #[trigger] reply.skip(i).take(3) == "200"@;
        let j = choose|j: int|
            0 <= j && j + 2 <= reply.len() && #[trigger] reply.skip(j).take(2) == "ok"@;
        assert(reply.skip(i).take(3) =~= reply.subrange(i, i + 3));
        assert(reply.skip(j).take(2) =~= reply.subrange(j, j + 2));
        assert(occurs_at(reply, "200"@, i));
        assert(occurs_at(reply, "ok"@, j));
    }
}

/// Whether `pat` stands somewhere in `s`, written out over positions.
pub open spec fn stands_in(s: Seq<char>, pat: Seq<char>) -> bool {
    exists|i: int| 0 <= i && i + pat.len() <= s.len() && #[trigger] s.skip(i).take(pat.len() as int) == pat
}

proof fn lemma_stands_in(s: Seq<char>, pat: Seq<char>)
    ensures
        stands_in(s, pat) <==> contains_seq(s, pat),
{
    if stands_in(s, pat) {
        let i = choose|i: int|
            0 <= i && i + pat.len() <= s.len() && #[trigger] s.skip(i).take(pat.len() as int) == pat;
        assert(s.skip(i).take(pat.len() as int) =~= s.subrange(i, i + pat.len()));
        assert(occurs_at(s, pat, i));
    }
    if contains_seq(s, pat) {
        let i = choose|i: int| occurs_at(s, pat, i);
        assert(s.skip(i).take(pat.len() as int) =~= s.subrange(i, i + pat.len()));
    }
}

/// The reply to a login request is `Valid` exactly when it starts with
/// `HTTP/1.1 200`; otherwise it is `Invalid` exactly when ` 401 ` or ` 403 `
/// stands somewhere in it, and `Unreachable` in every other case (another
/// status such as 404, 429 or 500, or no reply at all).
pub proof fn law_login_reply_classes(reply: Seq<char>)
    ensures
        (login_reply_check(reply) == LoginCheck::Valid) <==> (reply.len() >= 12 && reply.take(12)
            == "HTTP/1.1 200"@),
        (login_reply_check(reply) == LoginCheck::Invalid) <==> (!(reply.len() >= 12 && reply.take(
            12,
        ) == "HTTP/1.1 200"@) && (stands_in(reply, " 401 "@) || stands_in(reply, " 403 "@))),
        (login_reply_check(reply) == LoginCheck::Unreachable) <==> (!(reply.len() >= 12
            && reply.take(12) == "HTTP/1.1 200"@) && !stands_in(reply, " 401 "@) && !stands_in(
            reply,
            " 403 "@,
        )),
{
    reveal_strlit("HTTP/1.1 200");
    reveal_strlit(" 401 ");
    reveal_strlit(" 403 ");
    lemma_stands_in(reply, " 401 "@);
    lemma_stands_in(reply, " 403 "@);
    assert(reply.len() >= 12 ==> reply.take(12) =~= reply.subrange(0, 12));
}

/// The JSON body of a login request for `admin` with `password`: the object
/// `{"password": .., "username": "admin"}`, keys in serde_json's sorted order.
pub open spec fn login_body_text(password: Seq<char>) -> Seq<char> {
    "{\"password\":"@ + json_string_literal(password) + ",\"username\":\"admin\"}"@
}

/// The body of the login request that checks a remembered password.
pub fn login_body(password: &str) -> (b: String)
    ensures
        b@ == login_body_text(password@),
{
    let quoted = match json_string(password) {
        Ok(q) => q,
        Err(_) => "\"\"".to_string(),
    };
    let body = "{\"password\":".to_string().concat(quoted.as_str()).concat(
        ",\"username\":\"admin\"}",
    );
    body
}

/// The whole login request sent to the local server on `port` with `body`.
pub open spec fn login_request_text(port: u16, body: Seq<char>) -> Seq<char> {
    "POST /api/auth/login HTTP/1.1\r\nHost: 127.0.0.1:"@ + decimal(port as nat)
        + "\r\nContent-Type: application/json\r\nContent-Length: "@ + decimal(
        encode_utf8(body).len(),
    ) + "\r\nConnection: close\r\n\r\n"@ + body
}

/// The HTTP request that checks `password` for `admin` against the local
/// server on `port`.
pub fn login_request(port: u16, password: &str) -> (r: String)
    ensures
        r@ == login_request_text(port, login_body_text(password@)),
{
    let body = login_body(password);
    let length = utf8_byte_count(&chars_of(body.as_str()));
    let mut r = "POST /api/auth/login HTTP/1.1\r\nHost: 127.0.0.1:".to_string();
    push_decimal(&mut r, port as u128);
    r.append("\r\nContent-Type: application/json\r\nContent-Length: ");
    push_decimal(&mut r, length);
    r.append("\r\nConnection: close\r\n\r\n");
    r.append(body.as_str());
    r
}

} // verus!
