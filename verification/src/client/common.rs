//! Connection properties, the configuration resolver, and the response
//! normalization shared by every transport backend.

use crate::jsonval::{as_str_string, field_str_opt, get_field, json_of, parse_json};
use crate::strutil::{dec_digits, u16_to_dec};
use serde_json::Value;
use vstd::prelude::*;

verus! {

/// The structured error body the API returns with a failing status.
#[derive(Debug, Clone, Default)]
pub struct WhiskError {
    /// The error code the server assigned.
    pub code: String,
    /// The human-readable error message.
    pub error: String,
}

/// Connection properties supplied by a caller.
#[derive(Debug, Clone, Default)]
pub struct WskProperties {
    /// `:`-separated username and password.
    pub auth_token: String,
    /// The API host to interact with.
    pub host: String,
    /// The API version.
    pub version: String,
    /// Toggle for bypassing certificate validation.
    pub insecure: bool,
    /// The namespace the client addresses.
    pub namespace: String,
    /// Toggle for verbose output.
    pub verbose: bool,
    /// Toggle for debug output.
    pub debug: bool,
}

impl WskProperties {
    /// Creates connection properties from the three values every client
    /// needs; the version defaults to `v1` and every toggle starts off.
    pub fn new(auth_token: String, host: String, namespace: String) -> (r: Self)
        ensures
            r.auth_token == auth_token,
            r.host == host,
            r.namespace == namespace,
            r.version@ == "v1"@,
            !r.insecure,
            !r.verbose,
            !r.debug,
    {
        WskProperties {
            auth_token,
            host,
            namespace,
            version: String::from_str("v1"),
            insecure: false,
            verbose: false,
            debug: false,
        }
    }

    /// Returns the properties with the debug toggle set as given.
    pub fn set_debug(self, debug: bool) -> (r: Self)
        ensures
            r == (WskProperties { debug, ..self }),
    {
        WskProperties { debug, ..self }
    }

    /// Returns the properties with the verbose toggle set as given.
    pub fn set_verbose(self, verbose: bool) -> (r: Self)
        ensures
            r == (WskProperties { verbose, ..self }),
    {
        WskProperties { verbose, ..self }
    }

    /// Returns the properties with the API version set as given.
    pub fn set_version(self, version: String) -> (r: Self)
        ensures
            r == (WskProperties { version, ..self }),
    {
        WskProperties { version, ..self }
    }

    /// Returns the properties set to bypass certificate validation, for
    /// hosts serving self-signed or invalid certificates.
    pub fn set_bypass_cerificate_check(self, bypass: bool) -> (r: Self)
        ensures
            r == (WskProperties { insecure: bypass, ..self }),
    {
        WskProperties { insecure: bypass, ..self }
    }
}

/// Process-wide overrides for the configuration resolver.  The caller
/// snapshots its environment into this record once; a present override
/// always wins over explicit properties.
#[derive(Debug, Clone, Default)]
pub struct EnvOverrides {
    /// Overrides the `:`-separated credentials.
    pub api_key: Option<String>,
    /// Overrides the API host.
    pub host: Option<String>,
    /// Overrides the namespace.
    pub namespace: Option<String>,
}

impl EnvOverrides {
    /// An empty snapshot: no override present.
    pub fn none() -> (r: Self)
        ensures
            r.api_key is None,
            r.host is None,
            r.namespace is None,
    {
        EnvOverrides { api_key: None, host: None, namespace: None }
    }
}

/// Resolved, immutable connection settings for one client instance.
#[derive(Debug, Clone, Default)]
pub struct Context {
    host: String,
    namespace: String,
    insecure: bool,
    username: String,
    password: String,
    version: String,
}

/// The abstract content of a `Context`.
pub struct ContextView {
    /// The API host URL.
    pub host: Seq<char>,
    /// The namespace addressed by every operation.
    pub namespace: Seq<char>,
    /// Whether certificate validation is bypassed.
    pub insecure: bool,
    /// The username for basic authentication.
    pub username: Seq<char>,
    /// The password for basic authentication.
    pub password: Seq<char>,
    /// The API version.
    pub version: Seq<char>,
}

impl View for Context {
    type V = ContextView;

    closed spec fn view(&self) -> ContextView {
        ContextView {
            host: self.host@,
            namespace: self.namespace@,
            insecure: self.insecure,
            username: self.username@,
            password: self.password@,
            version: self.version@,
        }
    }
}

/// The credential string the resolver settles on: the override, else the
/// explicit properties, else the test default.
pub open spec fn resolved_api_key(env: &EnvOverrides, w: Option<&WskProperties>) -> Seq<char> {
    match env.api_key {
        Some(k) => k@,
        None => match w {
            Some(p) => p.auth_token@,
            None => "test:test"@,
        },
    }
}

/// The host the resolver settles on.
pub open spec fn resolved_host(env: &EnvOverrides, w: Option<&WskProperties>) -> Seq<char> {
    match env.host {
        Some(h) => h@,
        None => match w {
            Some(p) => p.host@,
            None => "host.docker.internal"@,
        },
    }
}

/// The namespace the resolver settles on.
pub open spec fn resolved_namespace(env: &EnvOverrides, w: Option<&WskProperties>) -> Seq<char> {
    match env.namespace {
        Some(n) => n@,
        None => match w {
            Some(p) => p.namespace@,
            None => "guest"@,
        },
    }
}

/// The insecure-transport flag the resolver settles on.
pub open spec fn resolved_insecure(w: Option<&WskProperties>) -> bool {
    match w {
        Some(p) => p.insecure,
        None => false,
    }
}

/// The API version the resolver settles on.
pub open spec fn resolved_version(w: Option<&WskProperties>) -> Seq<char> {
    match w {
        Some(p) => p.version@,
        None => "v1"@,
    }
}

/// The index of the first occurrence of a character, or `-1`.
pub open spec fn find_char(s: Seq<char>, c: char) -> int
    decreases s.len(),
{
    if s.len() == 0 {
        -1
    } else if s[0] == c {
        0
    } else {
        let r = find_char(s.subrange(1, s.len() as int), c);
        if r < 0 {
            -1
        } else {
            r + 1
        }
    }
}

/// `find_char` names the first index holding the character.
pub proof fn lemma_find_char_at(s: Seq<char>, c: char, i: int)
    requires
        0 <= i < s.len(),
        s[i] == c,
        forall|j: int| 0 <= j < i ==> s[j] != c,
    ensures
        find_char(s, c) == i,
    decreases i,
{
    if i == 0 {
    } else {
        let t = s.subrange(1, s.len() as int);
        assert(t[i - 1] == c);
        assert(forall|j: int| 0 <= j < i - 1 ==> t[j] == s[j + 1] && t[j] != c);
        lemma_find_char_at(t, c, i - 1);
    }
}

/// `find_char` reports absence exactly when no index holds the character.
pub proof fn lemma_find_char_none(s: Seq<char>, c: char)
    requires
        forall|j: int| 0 <= j < s.len() ==> s[j] != c,
    ensures
        find_char(s, c) == -1,
    decreases s.len(),
{
    if s.len() == 0 {
    } else {
        let t = s.subrange(1, s.len() as int);
        assert(forall|j: int| 0 <= j < t.len() ==> t[j] == s[j + 1] && t[j] != c);
        lemma_find_char_none(t, c);
    }
}

/// Finds the first `:` in a credential string.
pub fn find_colon(s: &str) -> (r: Option<usize>)
    ensures
        r matches Some(i) ==> i < s@.len() && find_char(s@, ':') == i as int,
        r is None ==> find_char(s@, ':') == -1,
{
    let n: usize = s.unicode_len();
    let mut i: usize = 0;
    while i < n
        invariant
            0 <= i <= n,
            n == s@.len(),
            forall|j: int| 0 <= j < i ==> s@[j] != ':',
        decreases n - i,
    {
        if s.get_char(i) == ':' {
            proof {
                lemma_find_char_at(s@, ':', i as int);
            }
            return Some(i);
        }
        i = i + 1;
    }
    proof {
        lemma_find_char_none(s@, ':');
    }
    None
}

/// Splits a credential string at its first `:` into username and
/// password; `None` when no `:` is present.
pub fn split_api_key(key: &str) -> (r: Option<(String, String)>)
    ensures
        find_char(key@, ':') >= 0 ==> (r matches Some((u, p)) && u@ == key@.subrange(
            0,
            find_char(key@, ':'),
        ) && p@ == key@.subrange(find_char(key@, ':') + 1, key@.len() as int)),
        find_char(key@, ':') == -1 ==> r is None,
{
    match find_colon(key) {
        Some(i) => {
            let n: usize = key.unicode_len();
            let user = key.substring_char(0, i).to_owned();
            let pass = key.substring_char(i + 1, n).to_owned();
            Some((user, pass))
        },
        None => None,
    }
}

impl Context {
    /// Resolves connection settings from an environment snapshot and
    /// optional explicit properties: for each field the override wins,
    /// then the explicit value, then a hardcoded default.  A credential
    /// string without a `:` separator is a configuration error.
    pub fn new(env: &EnvOverrides, wskprops: Option<&WskProperties>) -> (r: Result<
        Context,
        String,
    >)
        ensures
            r matches Ok(c) ==> {
                let key = resolved_api_key(env, wskprops);
                let i = find_char(key, ':');
                &&& i >= 0
                &&& c@.host == resolved_host(env, wskprops)
                &&& c@.namespace == resolved_namespace(env, wskprops)
                &&& c@.insecure == resolved_insecure(wskprops)
                &&& c@.version == resolved_version(wskprops)
                &&& c@.username == key.subrange(0, i)
                &&& c@.password == key.subrange(i + 1, key.len() as int)
            },
            r matches Err(e) ==> find_char(resolved_api_key(env, wskprops), ':') == -1 && e@
                == "Invalid auth token: missing ':' separator"@,
    {
        let api_key: String = match &env.api_key {
            Some(k) => k.clone(),
            None => match wskprops {
                Some(p) => p.auth_token.clone(),
                None => String::from_str("test:test"),
            },
        };
        let (username, password) = match split_api_key(api_key.as_str()) {
            Some(parts) => parts,
            None => {
                return Err(String::from_str("Invalid auth token: missing ':' separator"));
            },
        };
        let host: String = match &env.host {
            Some(h) => h.clone(),
            None => match wskprops {
                Some(p) => p.host.clone(),
                None => String::from_str("host.docker.internal"),
            },
        };
        let namespace: String = match &env.namespace {
            Some(n) => n.clone(),
            None => match wskprops {
                Some(p) => p.namespace.clone(),
                None => String::from_str("guest"),
            },
        };
        let insecure: bool = match wskprops {
            Some(p) => p.insecure,
            None => false,
        };
        let version: String = match wskprops {
            Some(p) => p.version.clone(),
            None => String::from_str("v1"),
        };
        Ok(Context { host, namespace, insecure, username, password, version })
    }

    /// Returns the namespace every operation addresses.
    pub fn namespace(&self) -> (r: &str)
        ensures
            r@ == self@.namespace,
    {
        self.namespace.as_str()
    }

    /// Returns the insecure-transport flag.
    pub fn is_secure(&self) -> (r: bool)
        ensures
            r == self@.insecure,
    {
        self.insecure
    }

    /// Returns the username and password for basic authentication.
    pub fn auth(&self) -> (r: (&str, &str))
        ensures
            r.0@ == self@.username,
            r.1@ == self@.password,
    {
        (self.username.as_str(), self.password.as_str())
    }

    /// Returns the API host.
    pub fn host(&self) -> (r: &str)
        ensures
            r@ == self@.host,
    {
        self.host.as_str()
    }

    /// Copies the context; the copy carries the same settings.
    pub fn dup(&self) -> (r: Context)
        ensures
            r@ == self@,
    {
        Context {
            host: self.host.clone(),
            namespace: self.namespace.clone(),
            insecure: self.insecure,
            username: self.username.clone(),
            password: self.password.clone(),
            version: self.version.clone(),
        }
    }
}

/// A transport strategy backend, created once per client from the
/// resolved insecure-transport flag.
pub trait OpenWhisk {
    /// The concrete client the backend hands back.
    type Output;

    /// Creates a new backend client; the flag must be present.
    fn new_whisk_client(insecure: Option<bool>) -> Self::Output
        requires
            insecure is Some,
    ;
}

/// The text of an HTTP status error: the status in decimal and the
/// server's message.
pub open spec fn whisk_error_text(code: int, message: Seq<char>) -> Seq<char> {
    ": Error -> [ Status :"@ + dec_digits(code) + ", Message : "@ + message + " ]"@
}

/// Renders an HTTP status error from the status code and the server's
/// message.
pub fn whisk_errors(code: u16, message: String) -> (r: String)
    ensures
        r@ == whisk_error_text(code as int, message@),
{
    let mut s = String::from_str(": Error -> [ Status :");
    let num = u16_to_dec(code);
    s.append(num.as_str());
    s.append(", Message : ");
    s.append(message.as_str());
    s.append(" ]");
    proof {
        assert(s@ =~= whisk_error_text(code as int, message@));
    }
    s
}

/// The message carried by a failing response: both fields of a structured
/// error body when one is present, the raw body text otherwise.
pub open spec fn error_payload(body: Seq<char>) -> Seq<char> {
    match json_of(body) {
        Some(v) => match field_str_opt(v, "code"@) {
            Some(c) => match field_str_opt(v, "error"@) {
                Some(e) => "Code: "@ + c + ", "@ + e,
                None => body,
            },
            None => body,
        },
        None => body,
    }
}

/// The text of a decode failure on a success status.
pub open spec fn decode_error_text(body: Seq<char>) -> Seq<char> {
    "Failed to decode response body as JSON: "@ + body
}

/// Decodes the structured error body of a failing response, when both of
/// its fields are present as strings.
pub fn whisk_error_of_value(v: &Value) -> (r: Option<WhiskError>)
    ensures
        r matches Some(w) ==> field_str_opt(*v, "code"@) == Some(w.code@) && field_str_opt(
            *v,
            "error"@,
        ) == Some(w.error@),
        r is None ==> field_str_opt(*v, "code"@) is None || field_str_opt(*v, "error"@) is None,
{
    let code = match get_field(v, "code") {
        Some(f) => match as_str_string(&f) {
            Some(s) => s,
            None => {
                return None;
            },
        },
        None => {
            return None;
        },
    };
    let error = match get_field(v, "error") {
        Some(f) => match as_str_string(&f) {
            Some(s) => s,
            None => {
                return None;
            },
        },
        None => {
            return None;
        },
    };
    Some(WhiskError { code, error })
}

/// What a normalized outcome is, given the raw status and body text: a
/// success status yields the decoded JSON body or a decode error; any
/// other status yields a status error carrying the structured error body
/// when one can be read, the raw body text otherwise.
pub open spec fn normalized_outcome(status: u16, body: Seq<char>, r: Result<Value, String>) -> bool {
    &&& status == 200 ==> (json_of(body) matches Some(v) ==> (r matches Ok(rv) && rv == v))
    &&& status == 200 && json_of(body) is None ==> (r matches Err(e) && e@ == decode_error_text(
        body,
    ))
    &&& status != 200 ==> (r matches Err(e) && e@ == whisk_error_text(
        status as int,
        error_payload(body),
    ))
}

/// Any two normalized outcomes of the same raw response are the same
/// result: the transport backends cannot disagree on what a status and
/// body mean, in category or in content.
pub proof fn lemma_variants_agree(
    status: u16,
    body: Seq<char>,
    r1: Result<Value, String>,
    r2: Result<Value, String>,
)
    requires
        normalized_outcome(status, body, r1),
        normalized_outcome(status, body, r2),
    ensures
        r1 is Ok <==> r2 is Ok,
        (r1 is Ok && r2 is Ok) ==> r1->Ok_0 == r2->Ok_0,
        (r1 is Err && r2 is Err) ==> (r1->Err_0)@ == (r2->Err_0)@,
{
}

/// Normalizes a raw HTTP outcome the way every transport backend must.
pub fn normalize_response(status: u16, body: &str) -> (r: Result<Value, String>)
    ensures
        normalized_outcome(status, body@, r),
{
    if status == 200 {
        match parse_json(body) {
            Ok(v) => Ok(v),
            Err(_) => {
                let mut msg = String::from_str("Failed to decode response body as JSON: ");
                msg.append(body);
                proof {
                    assert(msg@ =~= decode_error_text(body@));
                }
                Err(msg)
            },
        }
    } else {
        let payload: String = match parse_json(body) {
            Ok(v) => match whisk_error_of_value(&v) {
                Some(w) => {
                    let mut msg = String::from_str("Code: ");
                    msg.append(w.code.as_str());
                    msg.append(", ");
                    msg.append(w.error.as_str());
                    proof {
                        assert(msg@ =~= error_payload(body@));
                    }
                    msg
                },
                None => body.to_owned(),
            },
            Err(_) => body.to_owned(),
        };
        Err(whisk_errors(status, payload))
    }
}

} // verus!
