//! The Basic-Auth gate itself: its configuration, the decision it takes for
//! each request, and the exact specification of that decision.
use vstd::prelude::*;

verus! {

use vstd::string::StringExecFns;
use vstd::utf8::decode_utf8;
use vstd::utf8::valid_utf8;

use crate::codec::base64_decode;
use crate::codec::base64_decoding;
use crate::codec::utf8_decode;
use crate::header::check_text;
use crate::header::credential_token;
use crate::header::extract_token;
use crate::header::is_text;
use crate::scope::has_prefix;
use crate::scope::in_scope;

/// A Basic-Auth gate: requests whose path lies under one of `scopes` must
/// carry an `Authorization` header whose credentials token base64-decodes
/// to a member of `userlist`. Both lists are stored verbatim and never
/// mutated.
#[derive(Clone)]
pub struct AuthMiddleWare {
    pub userlist: Vec<String>,
    pub scopes: Vec<String>,
}

/// The response a gate answers a denied request with: status `401`, a plain
/// text body, and the value of the `WWW-Authenticate` challenge header.
pub struct Denial {
    pub status: u16,
    pub body: String,
    pub challenge: String,
}

/// What is decided for one request: hand it to the next stage
/// unchanged, or answer it directly with a denial.
pub enum Decision {
    Forward,
    Deny(Denial),
}

/// The mathematical form of a decision.
#[verifier::ext_equal]
pub enum GateOutcome {
    Forward,
    Deny { status: int, body: Seq<char>, challenge: Seq<char> },
}

impl View for Decision {
    type V = GateOutcome;

    open spec fn view(&self) -> GateOutcome {
        match self {
            Decision::Forward => GateOutcome::Forward,
            Decision::Deny(denial) => GateOutcome::Deny {
                status: denial.status as int,
                body: denial.body@,
                challenge: denial.challenge@,
            },
        }
    }
}

/// The challenge a denial carries: `Basic realm=` followed by the exact
/// request path.
pub open spec fn challenge_of(path: Seq<char>) -> Seq<char> {
    "Basic realm="@ + path
}

/// The denial for `path` with the given body text.
pub open spec fn deny_of(path: Seq<char>, body: Seq<char>) -> GateOutcome {
    GateOutcome::Deny { status: 401, body: body, challenge: challenge_of(path) }
}

/// Whether a credentials token is accepted: it must base64-decode, the
/// decoded bytes must form UTF-8 text, and that text must be a member of
/// the allow-list.
pub open spec fn auth_ok(userlist: Seq<Seq<char>>, code: Seq<u8>) -> bool {
    match base64_decoding(code) {
        Some(decoded) => valid_utf8(decoded) && userlist.contains(decode_utf8(decoded)),
        None => false,
    }
}

/// The view of an optional borrowed header value.
pub open spec fn header_view(authorization: Option<&[u8]>) -> Option<Seq<u8>> {
    match authorization {
        Some(h) => Some(h@),
        None => None,
    }
}

/// The whole decision for one request, as a function of the
/// configuration, the request path, and the raw `Authorization` header.
pub open spec fn spec_evaluate(
    userlist: Seq<Seq<char>>,
    scopes: Seq<Seq<char>>,
    path: Seq<char>,
    authorization: Option<Seq<u8>>,
) -> GateOutcome {
    if !in_scope(scopes, path) {
        GateOutcome::Forward
    } else {
        match authorization {
            None => deny_of(path, "Unauthorized"@),
            Some(h) => {
                if !is_text(h) {
                    deny_of(path, "Invalid Auth header: failed to convert header to a str"@)
                } else {
                    match credential_token(h) {
                        None => deny_of(path, "Invalid Auth header: missing credentials token"@),
                        Some(code) => {
                            if auth_ok(userlist, code) {
                                GateOutcome::Forward
                            } else {
                                deny_of(path, "Auth failed "@)
                            }
                        },
                    }
                }
            },
        }
    }
}

/// Builds the denial for `path`: status `401`, the given body, and the
/// `Basic realm=<path>` challenge.
pub fn auth_error(path: &str, body: String) -> (denial: Denial)
    ensures
        denial.status == 401,
        denial.body@ == body@,
        denial.challenge@ == challenge_of(path@),
{
    Denial { status: 401, body, challenge: "Basic realm=".to_owned().concat(path) }
}

/// Decides whether `list` holds a string equal to `searched`.
fn list_contains(list: &Vec<String>, searched: &String) -> (r: bool)
    ensures
        r == list.deep_view().contains(searched@),
{
    let n: usize = list.len();
    let mut i: usize = 0;
    while i < n
        invariant
            n == list.len(),
            0 <= i <= n,
            forall|k: int| 0 <= k < i ==> list.deep_view()[k] != searched@,
        decreases n - i,
    {
        if list[i] == *searched {
            assert(list.deep_view()[i as int] == searched@);
            return true;
        }
        i += 1;
    }
    false
}

impl AuthMiddleWare {
    /// Builds a gate from an allow-list and a scope list, stored verbatim;
    /// the lists' contents are not validated.
    pub fn new(userlist: Vec<String>, scopes: Vec<String>) -> (r: AuthMiddleWare)
        ensures
            r.userlist == userlist,
            r.scopes == scopes,
    {
        AuthMiddleWare { userlist, scopes }
    }

    /// The development configuration: one credential `admin:admin` and one
    /// scope `/`, so that every path is protected.
    pub fn default() -> (r: AuthMiddleWare)
        ensures
            r.userlist.deep_view() == seq!["admin:admin"@],
            r.scopes.deep_view() == seq!["/"@],
    {
        let mut userlist: Vec<String> = Vec::new();
        userlist.push("admin:admin".to_owned());
        let mut scopes: Vec<String> = Vec::new();
        scopes.push("/".to_owned());
        assert(userlist.deep_view() =~= seq!["admin:admin"@]);
        assert(scopes.deep_view() =~= seq!["/"@]);
        AuthMiddleWare { userlist, scopes }
    }

    /// Decides whether a credentials token is accepted against the
    /// allow-list.
    pub fn auth(&self, code: &[u8]) -> (r: bool)
        ensures
            r == auth_ok(self.userlist.deep_view(), code@),
    {
        match base64_decode(code) {
            Some(decoded) => {
                match utf8_decode(decoded) {
                    Some(user_pass) => list_contains(&self.userlist, &user_pass),
                    None => false,
                }
            },
            None => false,
        }
    }

    /// Decides whether `path` lies under one of the configured scopes.
    pub fn inside_scopes(&self, path: &str) -> (r: bool)
        ensures
            r == in_scope(self.scopes.deep_view(), path@),
    {
        let n: usize = self.scopes.len();
        let mut i: usize = 0;
        while i < n
            invariant
                n == self.scopes.len(),
                0 <= i <= n,
                forall|k: int| 0 <= k < i ==> !self.scopes.deep_view()[k].is_prefix_of(path@),
            decreases n - i,
        {
            if has_prefix(path, self.scopes[i].as_str()) {
                assert(self.scopes.deep_view()[i as int].is_prefix_of(path@));
                return true;
            }
            i += 1;
        }
        false
    }

    /// Evaluates one request: out-of-scope requests pass through; in-scope
    /// requests pass exactly when their `Authorization` header carries an
    /// accepted credentials token, and are otherwise answered with a `401`
    /// denial whose body names what was wrong and whose challenge carries
    /// the request path as its realm.
    pub fn evaluate(&self, path: &str, authorization: Option<&[u8]>) -> (d: Decision)
        ensures
            d@ == spec_evaluate(
                self.userlist.deep_view(),
                self.scopes.deep_view(),
                path@,
                header_view(authorization),
            ),
    {
        if !self.inside_scopes(path) {
            return Decision::Forward;
        }
        match authorization {
            None => Decision::Deny(auth_error(path, "Unauthorized".to_owned())),
            Some(h) => {
                if !check_text(h) {
                    Decision::Deny(
                        auth_error(
                            path,
                            "Invalid Auth header: failed to convert header to a str".to_owned(),
                        ),
                    )
                } else {
                    match extract_token(h) {
                        None => Decision::Deny(
                            auth_error(
                                path,
                                "Invalid Auth header: missing credentials token".to_owned(),
                            ),
                        ),
                        Some(code) => {
                            if self.auth(code) {
                                Decision::Forward
                            } else {
                                Decision::Deny(auth_error(path, "Auth failed ".to_owned()))
                            }
                        },
                    }
                }
            },
        }
    }
}

} // verus!
