//! Configuration of the key-value vault provider: resolved from values
//! supplied by the environment (handed in by the caller, which reads it),
//! the link-definition values, and defaults.

use crate::strutil::str_eq;
use vstd::prelude::*;
use vstd::string::StrSliceExecFns;
use vstd::string::StringExecFns;

verus! {

/// Whether a string parses as an absolute URL. Named for the result of
/// `url::Url::parse`, which depends on the string alone.
pub uninterp spec fn url_parse_ok(s: Seq<char>) -> bool;

/// Relies on url::Url::parse: whether the given text is a well-formed
/// absolute URL.
#[verifier::external_body]
fn check_url(s: &str) -> (r: bool)
    ensures
        r == url_parse_ok(s@),
{
    url::Url::parse(s).is_ok()
}

/// The address the vault is reached at when none is configured.
pub open spec fn default_vault_addr() -> Seq<char> {
    "http://127.0.0.1:8200"@
}

/// The vault provider's configuration.
#[derive(Clone, Debug)]
pub struct Config {
    /// Token for connecting to the vault. Required.
    pub token: String,
    /// Address text for connecting to the vault; a string that parses as
    /// a URL, or the default address where the configured one does not.
    pub addr: String,
    /// Vault mount point.
    pub mount: String,
    /// Paths to CA certificate files; setting any enables TLS. Parsed
    /// from a comma-separated list, each entry trimmed.
    pub certs: Vec<String>,
}

/// A failure to resolve the configuration.
#[derive(Debug)]
pub enum ConfigError {
    /// No token was configured anywhere.
    MissingToken,
}

impl ConfigError {
    /// A diagnostic line describing the failure.
    pub fn message(&self) -> (r: String)
        ensures
            r@ == "missing setting for 'token' or VAULT_TOKEN"@,
    {
        "missing setting for 'token' or VAULT_TOKEN".to_owned()
    }
}

/// The settings read from the process environment, handed in by the
/// caller: the values of the vault address, token, mount and certificate
/// variables, where set.
pub struct EnvSettings {
    pub addr: Option<String>,
    pub token: Option<String>,
    pub mount: Option<String>,
    pub certs: Option<String>,
}

/// The views of a list of key-value pairs.
pub open spec fn pairs_view(v: Seq<(String, String)>) -> Seq<(Seq<char>, Seq<char>)> {
    v.map_values(|p: (String, String)| (p.0@, p.1@))
}

/// The first value stored under a key, where one is.
pub open spec fn lookup(vs: Seq<(Seq<char>, Seq<char>)>, key: Seq<char>) -> Option<Seq<char>>
    decreases vs.len(),
{
    if vs.len() == 0 {
        None
    } else if vs[0].0 == key {
        Some(vs[0].1)
    } else {
        lookup(vs.drop_first(), key)
    }
}

/// One configuration setting: the environment value where set, else the
/// value under the lowercase key, else the value under the uppercase key.
pub open spec fn setting(
    env: Option<Seq<char>>,
    vs: Seq<(Seq<char>, Seq<char>)>,
    lower_key: Seq<char>,
    upper_key: Seq<char>,
) -> Option<Seq<char>> {
    match env {
        Some(s) => Some(s),
        None => match lookup(vs, lower_key) {
            Some(s) => Some(s),
            None => lookup(vs, upper_key),
        },
    }
}

/// The pieces of a string split at every comma; a string without commas is
/// one piece, and every comma adds one.
pub open spec fn split_commas(s: Seq<char>) -> Seq<Seq<char>>
    decreases s.len(),
{
    if s.len() == 0 {
        seq![Seq::empty()]
    } else if s[0] == ',' {
        seq![Seq::<char>::empty()] + split_commas(s.drop_first())
    } else {
        let rest = split_commas(s.drop_first());
        seq![seq![s[0]] + rest[0]] + rest.drop_first()
    }
}

/// A whitespace character, as the White_Space property defines them.
pub open spec fn is_wspace(c: char) -> bool {
    c == ' ' || c == '\t' || c == '\n' || c == '\u{b}' || c == '\u{c}' || c == '\r' || c
        == '\u{85}' || c == '\u{a0}' || c == '\u{1680}' || c == '\u{2000}' || c == '\u{2001}' || c
        == '\u{2002}' || c == '\u{2003}' || c == '\u{2004}' || c == '\u{2005}' || c == '\u{2006}'
        || c == '\u{2007}' || c == '\u{2008}' || c == '\u{2009}' || c == '\u{200a}' || c
        == '\u{2028}' || c == '\u{2029}' || c == '\u{202f}' || c == '\u{205f}' || c == '\u{3000}'
}

/// The string with its leading whitespace removed.
pub open spec fn trim_start(s: Seq<char>) -> Seq<char>
    decreases s.len(),
{
    if s.len() > 0 && is_wspace(s[0]) {
        trim_start(s.drop_first())
    } else {
        s
    }
}

/// The string with its trailing whitespace removed.
pub open spec fn trim_end(s: Seq<char>) -> Seq<char>
    decreases s.len(),
{
    if s.len() > 0 && is_wspace(s.last()) {
        trim_end(s.drop_last())
    } else {
        s
    }
}

/// The string with whitespace removed at both ends.
pub open spec fn trim_ws(s: Seq<char>) -> Seq<char> {
    trim_end(trim_start(s))
}

/// The certificate paths a configured value stands for: the value split at
/// commas, each piece trimmed.
pub open spec fn certs_of(s: Seq<char>) -> Seq<Seq<char>> {
    split_commas(s).map_values(|p: Seq<char>| trim_ws(p))
}

/// The address text the configuration resolves to: the configured one
/// where it parses as a URL, and the default address otherwise.
pub open spec fn resolved_addr(env: EnvSettings, vs: Seq<(Seq<char>, Seq<char>)>) -> Seq<char> {
    let chosen = match setting(
        match env.addr {
            Some(s) => Some(s@),
            None => None,
        },
        vs,
        "addr"@,
        "ADDR"@,
    ) {
        Some(s) => s,
        None => default_vault_addr(),
    };
    if url_parse_ok(chosen) {
        chosen
    } else {
        default_vault_addr()
    }
}

/// The token the configuration resolves to, where one is configured.
pub open spec fn resolved_token(env: EnvSettings, vs: Seq<(Seq<char>, Seq<char>)>) -> Option<
    Seq<char>,
> {
    setting(
        match env.token {
            Some(s) => Some(s@),
            None => None,
        },
        vs,
        "token"@,
        "TOKEN"@,
    )
}

/// The mount point the configuration resolves to.
pub open spec fn resolved_mount(env: EnvSettings, vs: Seq<(Seq<char>, Seq<char>)>) -> Seq<char> {
    match setting(
        match env.mount {
            Some(s) => Some(s@),
            None => None,
        },
        vs,
        "mount"@,
        "MOUNT"@,
    ) {
        Some(s) => s,
        None => "secret"@,
    }
}

/// The certificate paths the configuration resolves to: empty where
/// nothing is configured.
pub open spec fn resolved_certs(env: EnvSettings, vs: Seq<(Seq<char>, Seq<char>)>) -> Seq<
    Seq<char>,
> {
    match setting(
        match env.certs {
            Some(s) => Some(s@),
            None => None,
        },
        vs,
        "certs"@,
        "CERTS"@,
    ) {
        Some(s) => certs_of(s),
        None => Seq::empty(),
    }
}

/// Look a key up among the link values.
fn lookup_value(values: &Vec<(String, String)>, key: &str) -> (r: Option<String>)
    ensures
        match r {
            Some(s) => lookup(pairs_view(values@), key@) == Some(s@),
            None => lookup(pairs_view(values@), key@) is None,
        },
{
    let ghost vm = pairs_view(values@);
    let n = values.len();
    let mut i: usize = 0;
    proof {
        assert(vm.skip(0) =~= vm);
    }
    while i < n
        invariant
            n == values@.len(),
            i <= n,
            vm == pairs_view(values@),
            lookup(vm, key@) == lookup(vm.skip(i as int), key@),
        decreases n - i,
    {
        proof {
            assert(vm.skip(i as int).len() > 0);
            assert(vm.skip(i as int)[0] == vm[i as int]);
            assert(vm.skip(i as int).drop_first() =~= vm.skip(i as int + 1));
        }
        if str_eq(values[i].0.as_str(), key) {
            return Some(values[i].1.clone());
        }
        i += 1;
    }
    proof {
        assert(vm.skip(n as int) =~= Seq::<(Seq<char>, Seq<char>)>::empty());
    }
    None
}

/// Resolve one setting: the environment value where set, else the value
/// under the lowercase key, else under the uppercase key.
fn resolve_setting(
    env_value: &Option<String>,
    values: &Vec<(String, String)>,
    lower_key: &str,
    upper_key: &str,
) -> (r: Option<String>)
    ensures
        ({
            let s = setting(
                match *env_value {
                    Some(v) => Some(v@),
                    None => None,
                },
                pairs_view(values@),
                lower_key@,
                upper_key@,
            );
            match r {
                Some(v) => s == Some(v@),
                None => s is None,
            }
        }),
{
    match env_value {
        Some(v) => Some(v.clone()),
        None => match lookup_value(values, lower_key) {
            Some(v) => Some(v),
            None => lookup_value(values, upper_key),
        },
    }
}

/// A character is whitespace, as the White_Space property defines them.
fn wspace_char(c: char) -> (r: bool)
    ensures
        r == is_wspace(c),
{
    match c {
        ' ' | '\t' | '\n' | '\u{b}' | '\u{c}' | '\r' | '\u{85}' | '\u{a0}' | '\u{1680}'
            | '\u{2000}' | '\u{2001}' | '\u{2002}' | '\u{2003}' | '\u{2004}' | '\u{2005}'
            | '\u{2006}' | '\u{2007}' | '\u{2008}' | '\u{2009}' | '\u{200a}' | '\u{2028}'
            | '\u{2029}' | '\u{202f}' | '\u{205f}' | '\u{3000}' => true,
        _ => false,
    }
}

/// Leading whitespace reaches exactly to the first non-whitespace
/// character.
proof fn lemma_trim_start_at(s: Seq<char>, k: int)
    requires
        0 <= k <= s.len(),
        forall|j: int| 0 <= j < k ==> is_wspace(#[trigger] s[j]),
        k < s.len() ==> !is_wspace(s[k as int]),
    ensures
        trim_start(s) =~= s.skip(k),
    decreases k,
{
    if k == 0 {
        assert(s.skip(0) =~= s);
    } else {
        assert(is_wspace(s[0]));
        let t = s.drop_first();
        assert(forall|j: int| 0 <= j < k - 1 ==> is_wspace(#[trigger] t[j]));
        assert(k - 1 < t.len() ==> !is_wspace(t[k - 1]));
        lemma_trim_start_at(t, k - 1);
        assert(t.skip(k - 1) =~= s.skip(k));
    }
}

/// Trailing whitespace reaches exactly back to the last non-whitespace
/// character.
proof fn lemma_trim_end_at(s: Seq<char>, k: int)
    requires
        0 <= k <= s.len(),
        forall|j: int| k <= j < s.len() ==> is_wspace(#[trigger] s[j]),
        k > 0 ==> !is_wspace(s[k - 1]),
    ensures
        trim_end(s) =~= s.take(k),
    decreases s.len() - k,
{
    if k == s.len() {
        if s.len() > 0 && is_wspace(s.last()) {
            assert(false);
        }
        assert(s.take(k) =~= s);
    } else {
        assert(is_wspace(s.last()));
        let t = s.drop_last();
        assert(forall|j: int| k <= j < t.len() ==> is_wspace(#[trigger] t[j]));
        lemma_trim_end_at(t, k);
        assert(t.take(k) =~= s.take(k));
    }
}

/// Trim whitespace from both ends of a string.
fn trim_text(s: &str) -> (r: String)
    ensures
        r@ == trim_ws(s@),
{
    let n = s.unicode_len();
    let mut a: usize = 0;
    while a < n && wspace_char(s.get_char(a))
        invariant
            n == s@.len(),
            a <= n,
            forall|j: int| 0 <= j < a ==> is_wspace(#[trigger] s@[j]),
        decreases n - a,
    {
        a += 1;
    }
    proof {
        lemma_trim_start_at(s@, a as int);
    }
    if a == n {
        proof {
            assert(trim_start(s@) =~= Seq::<char>::empty());
            assert(trim_ws(s@) =~= Seq::<char>::empty());
        }
        return String::new();
    }
    let mut b: usize = n;
    while b > a && wspace_char(s.get_char(b - 1))
        invariant
            n == s@.len(),
            a <= b <= n,
            forall|j: int| 0 <= j < a ==> is_wspace(#[trigger] s@[j]),
            forall|j: int| b <= j < n ==> is_wspace(#[trigger] s@[j]),
        decreases b,
    {
        b -= 1;
    }
    proof {
        assert(b > a);
        assert(!is_wspace(s@[a as int]));
        let t = trim_start(s@);
        assert(t == s@.skip(a as int));
        assert(forall|j: int|
            b - a <= j < t.len() ==> is_wspace(#[trigger] t[j]) && t[j] == s@[j + a]);
        assert(!is_wspace(t[b - a - 1]));
        lemma_trim_end_at(t, b - a);
    }
    let piece = s.substring_char(a, b);
    proof {
        assert(piece@ =~= trim_ws(s@));
    }
    piece.to_owned()
}

/// Splitting at commas always yields at least one piece.
proof fn lemma_split_nonempty(s: Seq<char>)
    ensures
        split_commas(s).len() >= 1,
    decreases s.len(),
{
    if s.len() > 0 {
        lemma_split_nonempty(s.drop_first());
    }
}

/// The pieces still to come, given the piece collected so far and the
/// split of the remaining text: the collected piece extends the next one.
spec fn split_bridge(cur: Seq<char>, rest: Seq<Seq<char>>) -> Seq<Seq<char>> {
    seq![cur + rest[0]] + rest.drop_first()
}

/// Split a string at every comma.
fn split_commas_text(s: &str) -> (r: Vec<String>)
    ensures
        r@.map_values(|p: String| p@) == split_commas(s@),
{
    let n = s.unicode_len();
    let mut done: Vec<String> = Vec::new();
    let mut cur = String::new();
    let mut i: usize = 0;
    proof {
        assert(s@.skip(0) =~= s@);
        lemma_split_nonempty(s@);
        assert(Seq::<char>::empty() + split_commas(s@)[0] =~= split_commas(s@)[0]);
        assert(split_bridge(cur@, split_commas(s@.skip(0))) =~= split_commas(s@));
        assert(done@.map_values(|p: String| p@) + split_bridge(cur@, split_commas(s@.skip(0)))
            =~= split_commas(s@));
    }
    while i < n
        invariant
            n == s@.len(),
            i <= n,
            done@.map_values(|p: String| p@) + split_bridge(
                cur@,
                split_commas(s@.skip(i as int)),
            ) == split_commas(s@),
        decreases n - i,
    {
        let c = s.get_char(i);
        proof {
            assert(s@.skip(i as int).len() > 0);
            assert(s@.skip(i as int)[0] == s@[i as int]);
            assert(s@.skip(i as int).drop_first() =~= s@.skip(i as int + 1));
            lemma_split_nonempty(s@.skip(i as int + 1));
        }
        if c == ',' {
            let ghost done0 = done@;
            let ghost cur0 = cur@;
            done.push(cur);
            cur = String::new();
            proof {
                let rest = split_commas(s@.skip(i as int + 1));
                assert(split_commas(s@.skip(i as int)) == seq![Seq::<char>::empty()] + rest);
                assert(split_bridge(cur0, split_commas(s@.skip(i as int))) =~= seq![cur0] + rest);
                assert(split_bridge(cur@, rest) =~= rest);
                assert(done@.map_values(|p: String| p@) =~= done0.map_values(|p: String| p@)
                    + seq![cur0]);
                assert(done@.map_values(|p: String| p@) + split_bridge(cur@, rest) =~= split_commas(
                    s@,
                ));
            }
        } else {
            let ghost cur0 = cur@;
            crate::strutil::push_char(&mut cur, c);
            proof {
                let rest = split_commas(s@.skip(i as int + 1));
                assert(split_commas(s@.skip(i as int)) == seq![seq![s@[i as int]] + rest[0]]
                    + rest.drop_first());
                assert(cur0 + (seq![s@[i as int]] + rest[0]) =~= cur@ + rest[0]);
                assert(split_bridge(cur0, split_commas(s@.skip(i as int))) =~= split_bridge(
                    cur@,
                    rest,
                ));
            }
        }
        i += 1;
    }
    let ghost done0 = done@;
    let ghost cur0 = cur@;
    done.push(cur);
    proof {
        assert(s@.skip(n as int) =~= Seq::<char>::empty());
        assert(split_commas(s@.skip(n as int)) == seq![Seq::<char>::empty()]);
        assert(split_bridge(cur0, split_commas(s@.skip(n as int))) =~= seq![cur0]);
        assert(done@.map_values(|p: String| p@) =~= done0.map_values(|p: String| p@)
            + seq![cur0]);
        assert(done@.map_values(|p: String| p@) =~= split_commas(s@));
    }
    done
}

/// Split a comma-separated list of certificate paths and trim each piece.
fn split_certs(s: &str) -> (r: Vec<String>)
    ensures
        r@.map_values(|p: String| p@) == certs_of(s@),
{
    let raw = split_commas_text(s);
    let mut out: Vec<String> = Vec::new();
    let n = raw.len();
    let mut i: usize = 0;
    while i < n
        invariant
            n == raw@.len(),
            out@.len() == i <= n,
            raw@.map_values(|p: String| p@) == split_commas(s@),
            forall|j: int| 0 <= j < i ==> out@[j]@ == trim_ws(#[trigger] split_commas(s@)[j]),
        decreases n - i,
    {
        let t = trim_text(raw[i].as_str());
        proof {
            assert(raw@.map_values(|p: String| p@)[i as int] == raw@[i as int]@);
        }
        out.push(t);
        i += 1;
    }
    proof {
        assert(out@.map_values(|p: String| p@) =~= certs_of(s@));
    }
    out
}

impl Config {
    /// Resolve the configuration from the link values and the settings the
    /// caller read from the environment: an environment value wins over a
    /// lowercase link value, which wins over an uppercase one; the address
    /// falls back to the default where unset or not a well-formed URL; the
    /// mount point defaults; the certificate list parses from a
    /// comma-separated value and defaults to empty. Fails exactly when no
    /// token is configured anywhere.
    pub fn from_values(values: &Vec<(String, String)>, env: &EnvSettings) -> (r: Result<
        Config,
        ConfigError,
    >)
        ensures
            r is Ok <==> resolved_token(*env, pairs_view(values@)) is Some,
            r is Ok ==> ({
                let c = r->Ok_0;
                &&& Some(c.token@) == resolved_token(*env, pairs_view(values@))
                &&& c.addr@ == resolved_addr(*env, pairs_view(values@))
                &&& url_parse_ok(c.addr@) || c.addr@ == default_vault_addr()
                &&& c.mount@ == resolved_mount(*env, pairs_view(values@))
                &&& c.certs@.map_values(|p: String| p@) == resolved_certs(
                    *env,
                    pairs_view(values@),
                )
            }),
            r is Err ==> r->Err_0 is MissingToken,
    {
        let addr_chosen = match resolve_setting(&env.addr, values, "addr", "ADDR") {
            Some(s) => s,
            None => "http://127.0.0.1:8200".to_owned(),
        };
        let addr = if check_url(addr_chosen.as_str()) {
            addr_chosen
        } else {
            "http://127.0.0.1:8200".to_owned()
        };
        let token = match resolve_setting(&env.token, values, "token", "TOKEN") {
            Some(t) => t,
            None => {
                return Err(ConfigError::MissingToken);
            },
        };
        let mount = match resolve_setting(&env.mount, values, "mount", "MOUNT") {
            Some(m) => m,
            None => "secret".to_owned(),
        };
        let certs = match resolve_setting(&env.certs, values, "certs", "CERTS") {
            Some(c) => split_certs(c.as_str()),
            None => Vec::new(),
        };
        proof {
            assert(Seq::<String>::empty().map_values(|p: String| p@) =~= Seq::<Seq<char>>::empty());
        }
        Ok(Config { token, addr, mount, certs })
    }
}

} // verus!
