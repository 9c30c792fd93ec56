//! The middleware's general guarantees, stated and proved once and for all
//! configurations and requests.
use vstd::prelude::*;

verus! {

use crate::gate::auth_ok;
use crate::gate::deny_of;
use crate::gate::spec_evaluate;
use crate::gate::Decision;
use crate::gate::GateOutcome;
use crate::header::credential_token;
use crate::header::is_text;
use crate::header::lemma_space_from_skip;
use crate::header::space_from;
use crate::scope::in_scope;

/// A request whose path lies under no configured scope is always forwarded,
/// whatever the `Authorization` header holds — absent, malformed, or valid.
pub proof fn lemma_out_of_scope_forwards(
    userlist: Seq<Seq<char>>,
    scopes: Seq<Seq<char>>,
    path: Seq<char>,
    authorization: Option<Seq<u8>>,
)
    requires
        !in_scope(scopes, path),
    ensures
        spec_evaluate(userlist, scopes, path, authorization) is Forward,
{
}

/// An in-scope request without an `Authorization` header is denied with
/// status `401`, body `Unauthorized`, and the challenge
/// `Basic realm=<path>`.
pub proof fn lemma_missing_header_denied(
    userlist: Seq<Seq<char>>,
    scopes: Seq<Seq<char>>,
    path: Seq<char>,
)
    requires
        in_scope(scopes, path),
    ensures
        spec_evaluate(userlist, scopes, path, None) == (GateOutcome::Deny {
            status: 401,
            body: "Unauthorized"@,
            challenge: "Basic realm="@ + path,
        }),
{
}

/// An in-scope request whose textual header carries an accepted
/// credentials token passes through to the next stage.
pub proof fn lemma_accepted_credentials_forward(
    userlist: Seq<Seq<char>>,
    scopes: Seq<Seq<char>>,
    path: Seq<char>,
    h: Seq<u8>,
    code: Seq<u8>,
)
    requires
        in_scope(scopes, path),
        is_text(h),
        credential_token(h) == Some(code),
        auth_ok(userlist, code),
    ensures
        spec_evaluate(userlist, scopes, path, Some(h)) is Forward,
{
}

/// An in-scope request whose credentials token is not accepted — bad
/// base64, bad UTF-8, or a decoded string absent from the allow-list — is
/// denied with status `401` and the exact body `Auth failed `.
pub proof fn lemma_rejected_credentials_denied(
    userlist: Seq<Seq<char>>,
    scopes: Seq<Seq<char>>,
    path: Seq<char>,
    h: Seq<u8>,
    code: Seq<u8>,
)
    requires
        in_scope(scopes, path),
        is_text(h),
        credential_token(h) == Some(code),
        !auth_ok(userlist, code),
    ensures
        spec_evaluate(userlist, scopes, path, Some(h)) == deny_of(path, "Auth failed "@),
{
}

/// The credentials token of a header `<scheme> <code>` is exactly `<code>`
/// whenever the scheme and the code are free of spaces; the scheme token is
/// read past, never compared against anything.
pub proof fn lemma_scheme_then_code_token(scheme: Seq<u8>, code: Seq<u8>)
    requires
        forall|i: int| 0 <= i < scheme.len() ==> scheme[i] != 32,
        forall|i: int| 0 <= i < code.len() ==> code[i] != 32,
    ensures
        credential_token(scheme + seq![32u8] + code) == Some(code),
{
    let h = scheme + seq![32u8] + code;
    let sl = scheme.len() as int;
    assert(forall|j: int| 0 <= j < sl ==> h[j] != 32);
    lemma_space_from_skip(h, 0, sl);
    assert(h[sl] == 32);
    assert(space_from(h, 0) == sl);
    assert(forall|j: int| sl + 1 <= j < h.len() ==> h[j] != 32);
    lemma_space_from_skip(h, sl + 1, h.len() as int);
    assert(h.subrange(sl + 1, h.len() as int) =~= code);
}

/// Evaluating the same request twice against the same unmodified gate
/// yields the same decision both times.
pub proof fn lemma_evaluation_idempotent(
    first: Decision,
    second: Decision,
    userlist: Seq<Seq<char>>,
    scopes: Seq<Seq<char>>,
    path: Seq<char>,
    authorization: Option<Seq<u8>>,
)
    requires
        first@ == spec_evaluate(userlist, scopes, path, authorization),
        second@ == spec_evaluate(userlist, scopes, path, authorization),
    ensures
        first@ == second@,
{
}

/// A request passes through exactly when its path is out of scope, or its
/// textual `Authorization` header carries an accepted credentials token.
pub proof fn lemma_forward_exactly_when(
    userlist: Seq<Seq<char>>,
    scopes: Seq<Seq<char>>,
    path: Seq<char>,
    authorization: Option<Seq<u8>>,
)
    ensures
        spec_evaluate(userlist, scopes, path, authorization) is Forward <==> (!in_scope(
            scopes,
            path,
        ) || (authorization matches Some(h) && is_text(h) && (credential_token(h) matches Some(
            code,
        ) && auth_ok(userlist, code)))),
{
}

/// Every denial the evaluation produces carries status `401`, the
/// challenge `Basic realm=<path>` with the exact request path as realm,
/// and one of the fixed body texts.
pub proof fn lemma_denial_shape(
    userlist: Seq<Seq<char>>,
    scopes: Seq<Seq<char>>,
    path: Seq<char>,
    authorization: Option<Seq<u8>>,
)
    ensures
        spec_evaluate(userlist, scopes, path, authorization) matches GateOutcome::Deny {
            status,
            body,
            challenge,
        } ==> (status == 401 && challenge == "Basic realm="@ + path && (body == "Unauthorized"@
            || body == "Invalid Auth header: failed to convert header to a str"@
            || body == "Invalid Auth header: missing credentials token"@
            || body == "Auth failed "@)),
{
}

/// Scope matching is plain prefix matching: any path that some configured
/// scope is a character prefix of lies in scope, whether or not the prefix
/// ends on a path-segment boundary.
pub proof fn lemma_scope_prefix_match(scopes: Seq<Seq<char>>, scope: Seq<char>, path: Seq<char>)
    requires
        scopes.contains(scope),
        scope.is_prefix_of(path),
    ensures
        in_scope(scopes, path),
{
    let i = choose|i: int| 0 <= i < scopes.len() && scopes[i] == scope;
    assert(scopes[i].is_prefix_of(path));
}

} // verus!
