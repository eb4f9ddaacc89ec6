//! Minimal [`NetworkProxy`] used to inject proxy environment variables into
//! sandboxed child processes: the addresses children should be pointed at,
//! whether children may bind locally, and which Unix sockets stay reachable.

use vstd::prelude::*;
use crate::env_map::EnvMap;

verus! {

/// Environment variable set to `1` when proxy injection is active.
pub const PROXY_ACTIVE_ENV_KEY: &'static str = "RATTLER_NETWORK_PROXY_ACTIVE";

/// Environment variable set to `1` when children may bind local ports.
pub const ALLOW_LOCAL_BINDING_ENV_KEY: &'static str = "RATTLER_NETWORK_ALLOW_LOCAL_BINDING";

/// Value given to `NO_PROXY` / `no_proxy` when neither is set.
pub const DEFAULT_NO_PROXY_VALUE: &'static str = "localhost,127.0.0.1,::1,10.0.0.0/8,172.16.0.0/12,192.168.0.0/16";

/// The proxy URL variables, in the order they are consulted.
pub open spec fn proxy_url_env_keys() -> Seq<Seq<char>> {
    seq!["HTTP_PROXY"@, "HTTPS_PROXY"@, "WS_PROXY"@, "WSS_PROXY"@, "ALL_PROXY"@, "FTP_PROXY"@]
}

/// The environment variable keys that proxy injection overwrites, in the
/// order [`proxy_url_env_keys`] gives them.
pub fn proxy_url_env_key_names() -> (r: Vec<&'static str>)
    ensures
        r@.map_values(|k: &str| k@) == proxy_url_env_keys(),
{
    let r = vec!["HTTP_PROXY", "HTTPS_PROXY", "WS_PROXY", "WSS_PROXY", "ALL_PROXY", "FTP_PROXY"];
    assert(r@.map_values(|k: &str| k@) =~= proxy_url_env_keys());
    r
}

/// ASCII lower-casing of one character.
pub open spec fn ascii_lower(c: char) -> char {
    if 'A' <= c && c <= 'Z' {
        ((c as u32) + 32) as char
    } else {
        c
    }
}

/// ASCII lower-casing of a string.
pub open spec fn ascii_lowercase(s: Seq<char>) -> Seq<char> {
    s.map_values(|c: char| ascii_lower(c))
}

/// The Unicode `White_Space` property, as `char::is_whitespace` tests it.
pub open spec fn is_white_space(c: char) -> bool {
    let u = c as u32;
    ||| 0x9 <= u <= 0xD
    ||| u == 0x20
    ||| u == 0x85
    ||| u == 0xA0
    ||| u == 0x1680
    ||| 0x2000 <= u <= 0x200A
    ||| u == 0x2028
    ||| u == 0x2029
    ||| u == 0x202F
    ||| u == 0x205F
    ||| u == 0x3000
}

/// A value that is not empty once surrounding white space is trimmed.
pub open spec fn is_non_blank(s: Seq<char>) -> bool {
    exists|i: int| 0 <= i < s.len() && !is_white_space(#[trigger] s[i])
}

/// The value of `key`, or else of its ASCII-lowercased twin.
pub open spec fn spec_proxy_url_env_value(env: Map<Seq<char>, Seq<char>>, key: Seq<char>) -> Option<
    Seq<char>,
> {
    if env.contains_key(key) {
        Some(env[key])
    } else if env.contains_key(ascii_lowercase(key)) {
        Some(env[ascii_lowercase(key)])
    } else {
        None
    }
}

/// Whether some proxy URL variable (or its lowercase twin) holds a non-blank value.
pub open spec fn spec_has_proxy_url_env_vars(env: Map<Seq<char>, Seq<char>>) -> bool {
    exists|i: int|
        0 <= i < proxy_url_env_keys().len() && (match spec_proxy_url_env_value(
            env,
            #[trigger] proxy_url_env_keys()[i],
        ) {
            Some(v) => is_non_blank(v),
            None => false,
        })
}

/// `char::is_whitespace`.
pub fn is_white_space_char(c: char) -> (r: bool)
    ensures
        r == is_white_space(c),
{
    let u = c as u32;
    (0x9 <= u && u <= 0xD) || u == 0x20 || u == 0x85 || u == 0xA0 || u == 0x1680 || (0x2000 <= u
        && u <= 0x200A) || u == 0x2028 || u == 0x2029 || u == 0x202F || u == 0x205F || u == 0x3000
}

/// Whether `s` holds a character that is not white space (`!s.trim().is_empty()`).
pub fn is_non_blank_str(s: &str) -> (r: bool)
    ensures
        r == is_non_blank(s@),
{
    let chars = crate::text::chars_of(s);
    let mut i: usize = 0;
    while i < chars.len()
        invariant
            chars@ == s@,
            i <= chars@.len(),
            forall|j: int| 0 <= j < i ==> is_white_space(#[trigger] chars@[j]),
        decreases chars@.len() - i,
    {
        if !is_white_space_char(chars[i]) {
            return true;
        }
        i = i + 1;
    }
    false
}

fn ascii_lower_char(c: char) -> (r: char)
    ensures
        r == ascii_lower(c),
{
    if 'A' <= c && c <= 'Z' {
        ((c as u8) + 32) as char
    } else {
        c
    }
}

/// `s.to_ascii_lowercase()`.
pub fn to_ascii_lowercase(s: &str) -> (r: String)
    ensures
        r@ == ascii_lowercase(s@),
{
    let chars = crate::text::chars_of(s);
    let mut out: Vec<char> = Vec::new();
    let mut i: usize = 0;
    while i < chars.len()
        invariant
            chars@ == s@,
            i <= chars@.len(),
            out@ == ascii_lowercase(chars@.take(i as int)),
        decreases chars@.len() - i,
    {
        out.push(ascii_lower_char(chars[i]));
        i = i + 1;
        assert(out@ =~= ascii_lowercase(chars@.take(i as int)));
    }
    assert(chars@.take(chars@.len() as int) =~= chars@);
    crate::text::string_from_chars(out)
}

/// Looks up `canonical_key` in `env`, falling back to its lowercased twin.
pub fn proxy_url_env_value<'a>(env: &'a EnvMap, canonical_key: &str) -> (r: Option<&'a str>)
    ensures
        r matches Some(v) ==> spec_proxy_url_env_value(env@, canonical_key@) == Some(v@),
        r is None ==> spec_proxy_url_env_value(env@, canonical_key@) is None,
{
    if let Some(value) = env.get(canonical_key) {
        return Some(value.as_str());
    }
    let lower = to_ascii_lowercase(canonical_key);
    match env.get(lower.as_str()) {
        Some(v) => Some(v.as_str()),
        None => None,
    }
}

/// Returns `true` if any of the proxy URL env keys are set to a non-blank value.
pub fn has_proxy_url_env_vars(env: &EnvMap) -> (r: bool)
    ensures
        r == spec_has_proxy_url_env_vars(env@),
{
    let keys = proxy_url_env_key_names();
    let mut i: usize = 0;
    while i < keys.len()
        invariant
            i <= keys@.len(),
            keys@.map_values(|k: &str| k@) == proxy_url_env_keys(),
            forall|j: int|
                0 <= j < i ==> !(match spec_proxy_url_env_value(
                    env@,
                    #[trigger] proxy_url_env_keys()[j],
                ) {
                    Some(v) => is_non_blank(v),
                    None => false,
                }),
        decreases keys@.len() - i,
    {
        let key = keys[i];
        assert(key@ == proxy_url_env_keys()[i as int]);
        match proxy_url_env_value(env, key) {
            Some(v) => {
                if is_non_blank_str(v) {
                    return true;
                }
            },
            None => {},
        }
        i = i + 1;
    }
    false
}

/// The proxy settings as plain values.
pub struct NetworkProxyView {
    pub http_addr: Seq<char>,
    pub socks_addr: Seq<char>,
    pub socks_enabled: bool,
    pub allow_local_binding: bool,
    pub dangerously_allow_all_unix_sockets: bool,
    pub allow_unix_sockets: Seq<Seq<char>>,
}

/// Proxy addresses children are directed at, and what they may reach
/// besides the proxy. Addresses are kept in their textual `host:port` form.
#[derive(Debug, PartialEq, Eq)]
pub struct NetworkProxy {
    http_addr: String,
    socks_addr: String,
    socks_enabled: bool,
    allow_local_binding: bool,
    dangerously_allow_all_unix_sockets: bool,
    allow_unix_sockets: Vec<String>,
}

/// The character views of a list of strings.
pub open spec fn strings_view(v: Seq<String>) -> Seq<Seq<char>> {
    v.map_values(|s: String| s@)
}

/// `http://<addr>`.
pub open spec fn http_url(addr: Seq<char>) -> Seq<char> {
    "http://"@ + addr
}

/// `socks5://<addr>`.
pub open spec fn socks_url(addr: Seq<char>) -> Seq<char> {
    "socks5://"@ + addr
}

/// The environment after proxy injection.
pub open spec fn proxied_env(env: Map<Seq<char>, Seq<char>>, p: NetworkProxyView) -> Map<
    Seq<char>,
    Seq<char>,
> {
    let http = http_url(p.http_addr);
    let all = if p.socks_enabled {
        socks_url(p.socks_addr)
    } else {
        http
    };
    let m1 = env.insert("HTTP_PROXY"@, http).insert("HTTPS_PROXY"@, http).insert(
        "http_proxy"@,
        http,
    ).insert("https_proxy"@, http).insert("ALL_PROXY"@, all).insert("all_proxy"@, all).insert(
        "WS_PROXY"@,
        http,
    ).insert("WSS_PROXY"@, http).insert("FTP_PROXY"@, http).insert(PROXY_ACTIVE_ENV_KEY@, "1"@);
    let m2 = if p.allow_local_binding {
        m1.insert(ALLOW_LOCAL_BINDING_ENV_KEY@, "1"@)
    } else {
        m1
    };
    if !m2.contains_key("NO_PROXY"@) && !m2.contains_key("no_proxy"@) {
        m2.insert("NO_PROXY"@, DEFAULT_NO_PROXY_VALUE@).insert("no_proxy"@, DEFAULT_NO_PROXY_VALUE@)
    } else {
        m2
    }
}

fn clone_strings(v: &Vec<String>) -> (r: Vec<String>)
    ensures
        strings_view(r@) == strings_view(v@),
{
    let mut out: Vec<String> = Vec::new();
    let mut i: usize = 0;
    while i < v.len()
        invariant
            i <= v@.len(),
            out@.len() == i,
            forall|j: int| 0 <= j < i ==> #[trigger] out@[j]@ == v@[j]@,
        decreases v@.len() - i,
    {
        let c = v[i].clone();
        out.push(c);
        i = i + 1;
    }
    assert(strings_view(out@) =~= strings_view(v@));
    out
}

fn concat_str(a: &str, b: &str) -> (r: String)
    ensures
        r@ == a@ + b@,
{
    let mut s = a.to_owned();
    s.append(b);
    s
}

impl View for NetworkProxy {
    type V = NetworkProxyView;

    closed spec fn view(&self) -> NetworkProxyView {
        NetworkProxyView {
            http_addr: self.http_addr@,
            socks_addr: self.socks_addr@,
            socks_enabled: self.socks_enabled,
            allow_local_binding: self.allow_local_binding,
            dangerously_allow_all_unix_sockets: self.dangerously_allow_all_unix_sockets,
            allow_unix_sockets: strings_view(self.allow_unix_sockets@),
        }
    }
}

impl NetworkProxy {
    /// A proxy directing children at the given addresses; SOCKS on, local
    /// binding off, no Unix sockets allowed.
    pub fn new(http_addr: String, socks_addr: String) -> (r: Self)
        ensures
            r@ == (NetworkProxyView {
                http_addr: http_addr@,
                socks_addr: socks_addr@,
                socks_enabled: true,
                allow_local_binding: false,
                dangerously_allow_all_unix_sockets: false,
                allow_unix_sockets: Seq::empty(),
            }),
    {
        let r = Self {
            http_addr,
            socks_addr,
            socks_enabled: true,
            allow_local_binding: false,
            dangerously_allow_all_unix_sockets: false,
            allow_unix_sockets: Vec::new(),
        };
        assert(strings_view(r.allow_unix_sockets@) =~= Seq::<Seq<char>>::empty());
        r
    }

    pub fn with_socks_enabled(self, enabled: bool) -> (r: Self)
        ensures
            r@ == (NetworkProxyView { socks_enabled: enabled, ..self@ }),
    {
        let mut s = self;
        s.socks_enabled = enabled;
        s
    }

    pub fn with_allow_local_binding(self, allow: bool) -> (r: Self)
        ensures
            r@ == (NetworkProxyView { allow_local_binding: allow, ..self@ }),
    {
        let mut s = self;
        s.allow_local_binding = allow;
        s
    }

    pub fn with_dangerously_allow_all_unix_sockets(self, allow: bool) -> (r: Self)
        ensures
            r@ == (NetworkProxyView { dangerously_allow_all_unix_sockets: allow, ..self@ }),
    {
        let mut s = self;
        s.dangerously_allow_all_unix_sockets = allow;
        s
    }

    pub fn with_allow_unix_sockets(self, sockets: Vec<String>) -> (r: Self)
        ensures
            r@ == (NetworkProxyView { allow_unix_sockets: strings_view(sockets@), ..self@ }),
    {
        let mut s = self;
        s.allow_unix_sockets = sockets;
        s
    }

    pub fn http_addr(&self) -> (r: &str)
        ensures
            r@ == self@.http_addr,
    {
        self.http_addr.as_str()
    }

    pub fn socks_addr(&self) -> (r: &str)
        ensures
            r@ == self@.socks_addr,
    {
        self.socks_addr.as_str()
    }

    pub fn socks_enabled(&self) -> (r: bool)
        ensures
            r == self@.socks_enabled,
    {
        self.socks_enabled
    }

    pub fn allow_local_binding(&self) -> (r: bool)
        ensures
            r == self@.allow_local_binding,
    {
        self.allow_local_binding
    }

    pub fn allow_unix_sockets(&self) -> (r: &[String])
        ensures
            strings_view(r@) == self@.allow_unix_sockets,
    {
        self.allow_unix_sockets.as_slice()
    }

    pub fn dangerously_allow_all_unix_sockets(&self) -> (r: bool)
        ensures
            r == self@.dangerously_allow_all_unix_sockets,
    {
        self.dangerously_allow_all_unix_sockets
    }

    /// A copy of these settings.
    pub fn duplicate(&self) -> (r: Self)
        ensures
            r@ == self@,
    {
        Self {
            http_addr: self.http_addr.clone(),
            socks_addr: self.socks_addr.clone(),
            socks_enabled: self.socks_enabled,
            allow_local_binding: self.allow_local_binding,
            dangerously_allow_all_unix_sockets: self.dangerously_allow_all_unix_sockets,
            allow_unix_sockets: clone_strings(&self.allow_unix_sockets),
        }
    }

    /// Injects proxy settings as environment variables into `env`: every
    /// key of [`proxy_url_env_keys`] points at the proxy (`ALL_PROXY` at the
    /// SOCKS address when SOCKS is enabled, the others at the HTTP address),
    /// and so do the lower-case `http_proxy`, `https_proxy` and `all_proxy`.
    /// Existing entries are overwritten so command-level env cannot bypass
    /// the proxy.
    pub fn apply_to_env(&self, env: &mut EnvMap)
        ensures
            final(env)@ == proxied_env(old(env)@, self@),
    {
        let http = concat_str("http://", self.http_addr.as_str());
        let socks = concat_str("socks5://", self.socks_addr.as_str());
        let all_proxy = if self.socks_enabled {
            socks
        } else {
            http.clone()
        };
        env.insert("HTTP_PROXY".to_owned(), http.clone());
        env.insert("HTTPS_PROXY".to_owned(), http.clone());
        env.insert("http_proxy".to_owned(), http.clone());
        env.insert("https_proxy".to_owned(), http.clone());
        env.insert("ALL_PROXY".to_owned(), all_proxy.clone());
        env.insert("all_proxy".to_owned(), all_proxy);
        env.insert("WS_PROXY".to_owned(), http.clone());
        env.insert("WSS_PROXY".to_owned(), http.clone());
        env.insert("FTP_PROXY".to_owned(), http);
        env.insert(PROXY_ACTIVE_ENV_KEY.to_owned(), "1".to_owned());
        if self.allow_local_binding {
            env.insert(ALLOW_LOCAL_BINDING_ENV_KEY.to_owned(), "1".to_owned());
        }
        if env.get("NO_PROXY").is_none() && env.get("no_proxy").is_none() {
            env.insert("NO_PROXY".to_owned(), DEFAULT_NO_PROXY_VALUE.to_owned());
            env.insert("no_proxy".to_owned(), DEFAULT_NO_PROXY_VALUE.to_owned());
        }
    }
}

} // verus!

verus! {

/// Command-level environment cannot bypass the proxy: whatever `env`
/// held, after injection every proxy URL variable, and the lower-case
/// `http_proxy`, `https_proxy` and `all_proxy`, points at the proxy, and
/// the activity marker is set. When either `NO_PROXY` or `no_proxy` is
/// already set, both are left exactly as they were (set or unset, with their
/// values); only when neither is set are both given the default list.
pub proof fn law_proxy_env_overrides(env: Map<Seq<char>, Seq<char>>, p: NetworkProxyView)
    ensures
        ({
            let m = proxied_env(env, p);
            let http = http_url(p.http_addr);
            let all = if p.socks_enabled {
                socks_url(p.socks_addr)
            } else {
                http_url(p.http_addr)
            };
            &&& m["HTTP_PROXY"@] == http && m["http_proxy"@] == http
            &&& m["HTTPS_PROXY"@] == http && m["https_proxy"@] == http
            &&& m["WS_PROXY"@] == http
            &&& m["WSS_PROXY"@] == http
            &&& m["FTP_PROXY"@] == http
            &&& m["ALL_PROXY"@] == all && m["all_proxy"@] == all
            &&& forall|i: int|
                0 <= i < proxy_url_env_keys().len() ==> #[trigger] m.contains_key(
                    proxy_url_env_keys()[i],
                )
            &&& m[PROXY_ACTIVE_ENV_KEY@] == "1"@
            &&& env.contains_key("NO_PROXY"@) ==> m["NO_PROXY"@] == env["NO_PROXY"@]
            &&& m.contains_key("NO_PROXY"@) || m.contains_key("no_proxy"@)
            &&& (env.contains_key("NO_PROXY"@) || env.contains_key("no_proxy"@)) ==> {
                &&& m.contains_key("NO_PROXY"@) == env.contains_key("NO_PROXY"@)
                &&& m.contains_key("no_proxy"@) == env.contains_key("no_proxy"@)
                &&& env.contains_key("NO_PROXY"@) ==> m["NO_PROXY"@] == env["NO_PROXY"@]
                &&& env.contains_key("no_proxy"@) ==> m["no_proxy"@] == env["no_proxy"@]
            }
            &&& !env.contains_key("NO_PROXY"@) && !env.contains_key("no_proxy"@) ==> {
                &&& m["NO_PROXY"@] == DEFAULT_NO_PROXY_VALUE@
                &&& m["no_proxy"@] == DEFAULT_NO_PROXY_VALUE@
            }
        }),
{
    reveal_strlit("HTTP_PROXY");
    reveal_strlit("HTTPS_PROXY");
    reveal_strlit("http_proxy");
    reveal_strlit("https_proxy");
    reveal_strlit("ALL_PROXY");
    reveal_strlit("all_proxy");
    reveal_strlit("WS_PROXY");
    reveal_strlit("WSS_PROXY");
    reveal_strlit("FTP_PROXY");
    reveal_strlit("NO_PROXY");
    reveal_strlit("no_proxy");
    reveal_strlit("RATTLER_NETWORK_PROXY_ACTIVE");
    reveal_strlit("RATTLER_NETWORK_ALLOW_LOCAL_BINDING");
    assert("HTTP_PROXY"@.len() == 10);
    assert("HTTPS_PROXY"@.len() == 11);
    assert("http_proxy"@.len() == 10);
    assert("https_proxy"@.len() == 11);
    assert("ALL_PROXY"@.len() == 9);
    assert("all_proxy"@.len() == 9);
    assert("WS_PROXY"@.len() == 8);
    assert("WSS_PROXY"@.len() == 9);
    assert("FTP_PROXY"@.len() == 9);
    assert("NO_PROXY"@.len() == 8);
    assert("no_proxy"@.len() == 8);
    assert(PROXY_ACTIVE_ENV_KEY@.len() == 28);
    assert(ALLOW_LOCAL_BINDING_ENV_KEY@.len() == 35);
    assert("HTTP_PROXY"@[0] != "http_proxy"@[0]);
    assert("HTTPS_PROXY"@[0] != "https_proxy"@[0]);
    assert("ALL_PROXY"@[0] != "all_proxy"@[0]);
    assert("ALL_PROXY"@[0] != "WSS_PROXY"@[0]);
    assert("ALL_PROXY"@[0] != "FTP_PROXY"@[0]);
    assert("all_proxy"@[0] != "WSS_PROXY"@[0]);
    assert("all_proxy"@[0] != "FTP_PROXY"@[0]);
    assert("WSS_PROXY"@[0] != "FTP_PROXY"@[0]);
    assert("WS_PROXY"@[0] != "NO_PROXY"@[0]);
    assert("WS_PROXY"@[0] != "no_proxy"@[0]);
    assert("NO_PROXY"@[0] != "no_proxy"@[0]);
    let m = proxied_env(env, p);
    assert forall|i: int| 0 <= i < proxy_url_env_keys().len() implies #[trigger] m.contains_key(
        proxy_url_env_keys()[i],
    ) by {
        assert(proxy_url_env_keys()[0] == "HTTP_PROXY"@);
        assert(proxy_url_env_keys()[1] == "HTTPS_PROXY"@);
        assert(proxy_url_env_keys()[2] == "WS_PROXY"@);
        assert(proxy_url_env_keys()[3] == "WSS_PROXY"@);
        assert(proxy_url_env_keys()[4] == "ALL_PROXY"@);
        assert(proxy_url_env_keys()[5] == "FTP_PROXY"@);
    }
}

/// Injection touches only the proxy variables, the two markers and the
/// no-proxy pair: every other variable keeps its value, and one that was
/// unset stays unset. The local-binding marker is set to `1` exactly when
/// local binding is allowed; otherwise it is left as it was.
pub proof fn law_proxy_env_keeps_other_vars(
    env: Map<Seq<char>, Seq<char>>,
    p: NetworkProxyView,
    k: Seq<char>,
)
    ensures
        ({
            let m = proxied_env(env, p);
            &&& (k != "HTTP_PROXY"@ && k != "HTTPS_PROXY"@ && k != "http_proxy"@ && k
                != "https_proxy"@ && k != "ALL_PROXY"@ && k != "all_proxy"@ && k != "WS_PROXY"@
                && k != "WSS_PROXY"@ && k != "FTP_PROXY"@ && k != "NO_PROXY"@ && k
                != "no_proxy"@ && k != PROXY_ACTIVE_ENV_KEY@ && k != ALLOW_LOCAL_BINDING_ENV_KEY@)
                ==> (m.contains_key(k) == env.contains_key(k) && (env.contains_key(k) ==> m[k]
                == env[k]))
            &&& p.allow_local_binding ==> m[ALLOW_LOCAL_BINDING_ENV_KEY@] == "1"@
            &&& !p.allow_local_binding ==> (m.contains_key(ALLOW_LOCAL_BINDING_ENV_KEY@)
                == env.contains_key(ALLOW_LOCAL_BINDING_ENV_KEY@) && (env.contains_key(
                ALLOW_LOCAL_BINDING_ENV_KEY@,
            ) ==> m[ALLOW_LOCAL_BINDING_ENV_KEY@] == env[ALLOW_LOCAL_BINDING_ENV_KEY@]))
        }),
{
    reveal_strlit("NO_PROXY");
    reveal_strlit("no_proxy");
    reveal_strlit("RATTLER_NETWORK_PROXY_ACTIVE");
    reveal_strlit("RATTLER_NETWORK_ALLOW_LOCAL_BINDING");
    reveal_strlit("HTTP_PROXY");
    reveal_strlit("HTTPS_PROXY");
    reveal_strlit("http_proxy");
    reveal_strlit("https_proxy");
    reveal_strlit("ALL_PROXY");
    reveal_strlit("all_proxy");
    reveal_strlit("WS_PROXY");
    reveal_strlit("WSS_PROXY");
    reveal_strlit("FTP_PROXY");
    assert(ALLOW_LOCAL_BINDING_ENV_KEY@.len() == 35);
    assert(PROXY_ACTIVE_ENV_KEY@.len() == 28);
    assert("NO_PROXY"@.len() == 8);
    assert("no_proxy"@.len() == 8);
    assert("HTTP_PROXY"@.len() == 10);
    assert("HTTPS_PROXY"@.len() == 11);
    assert("http_proxy"@.len() == 10);
    assert("https_proxy"@.len() == 11);
    assert("ALL_PROXY"@.len() == 9);
    assert("all_proxy"@.len() == 9);
    assert("WS_PROXY"@.len() == 8);
    assert("WSS_PROXY"@.len() == 9);
    assert("FTP_PROXY"@.len() == 9);
}

} // verus!
