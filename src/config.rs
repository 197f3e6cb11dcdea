use vstd::prelude::*;
use vstd::string::*;

verus! {

/// Why a configuration could not be resolved.
#[derive(Debug)]
pub enum ConfigError {
    MissingField(String),
    InvalidNetwork(String),
    MissingNetworkConfig,
    ValidationError(String),
}

/// The networks a deployment can target.
#[derive(Clone, Copy, Debug, PartialEq, Eq, Structural)]
pub enum Network {
    Testnet,
    Mainnet,
    Sandbox,
}

/// The lower-case name of a network.
pub open spec fn network_name(n: Network) -> Seq<char> {
    match n {
        Network::Testnet => "testnet"@,
        Network::Mainnet => "mainnet"@,
        Network::Sandbox => "sandbox"@,
    }
}

/// The network whose lower-case name is `l`, if any.
pub open spec fn network_named(l: Seq<char>) -> Option<Network> {
    if l == "testnet"@ {
        Some(Network::Testnet)
    } else if l == "mainnet"@ {
        Some(Network::Mainnet)
    } else if l == "sandbox"@ {
        Some(Network::Sandbox)
    } else {
        None
    }
}

pub open spec fn rpc_url_of(n: Network) -> Seq<char> {
    match n {
        Network::Testnet => "https://soroban-testnet.stellar.org"@,
        Network::Mainnet => "https://mainnet.sorobanrpc.com"@,
        Network::Sandbox => "http://localhost:8000"@,
    }
}

pub open spec fn passphrase_of(n: Network) -> Seq<char> {
    match n {
        Network::Testnet => "Test SDF Network ; September 2015"@,
        Network::Mainnet => "Public Global Stellar Network ; September 2015"@,
        Network::Sandbox => "Standalone Network ; February 2017"@,
    }
}

/// What `str::to_lowercase` returns for the characters `s`.
pub uninterp spec fn lower_of(s: Seq<char>) -> Seq<char>;

/// Relies on `str::to_lowercase`: the result depends on the characters alone.
#[verifier::external_body]
fn lowercase(s: &str) -> (r: String)
    ensures
        r@ == lower_of(s@),
{
    s.to_lowercase()
}

/// Whether two strings hold the same characters.
pub fn str_eq(a: &str, b: &str) -> (r: bool)
    ensures
        r == (a@ == b@),
{
    let n = a.unicode_len();
    if n != b.unicode_len() {
        return false;
    }
    let mut i: usize = 0;
    while i < n
        invariant
            n == a@.len(),
            a@.len() == b@.len(),
            0 <= i <= n,
            forall|j: int| 0 <= j < i ==> a@[j] == b@[j],
        decreases n - i,
    {
        if a.get_char(i) != b.get_char(i) {
            return false;
        }
        i = i + 1;
    }
    assert(a@ =~= b@);
    true
}

/// Whether `s` begins with `p`.
pub fn has_prefix(s: &str, p: &str) -> (r: bool)
    ensures
        r == p@.is_prefix_of(s@),
{
    let n = p.unicode_len();
    if n > s.unicode_len() {
        return false;
    }
    let mut i: usize = 0;
    while i < n
        invariant
            n == p@.len(),
            n <= s@.len(),
            0 <= i <= n,
            forall|j: int| 0 <= j < i ==> p@[j] == s@[j],
        decreases n - i,
    {
        if p.get_char(i) != s.get_char(i) {
            return false;
        }
        i = i + 1;
    }
    assert(p@ =~= s@.subrange(0, n as int));
    true
}

impl Network {
    /// The lower-case name of the network.
    pub fn as_str(&self) -> (r: &'static str)
        ensures
            r@ == network_name(*self),
    {
        match self {
            Network::Testnet => "testnet",
            Network::Mainnet => "mainnet",
            Network::Sandbox => "sandbox",
        }
    }

    /// The lower-case name of the network, as an owned string.
    pub fn to_string(&self) -> (r: String)
        ensures
            r@ == network_name(*self),
    {
        String::from_str(self.as_str())
    }

    /// The network named by `l`, which is already in lower case.
    pub fn from_lowercase(l: String) -> (r: Result<Network, ConfigError>)
        ensures
            network_named(l@) matches Some(n) ==> r == Ok::<Network, ConfigError>(n),
            network_named(l@) is None ==> (r matches Err(ConfigError::InvalidNetwork(m)) && m@
                == l@),
    {
        if str_eq(l.as_str(), "testnet") {
            Ok(Network::Testnet)
        } else if str_eq(l.as_str(), "mainnet") {
            Ok(Network::Mainnet)
        } else if str_eq(l.as_str(), "sandbox") {
            Ok(Network::Sandbox)
        } else {
            Err(ConfigError::InvalidNetwork(l))
        }
    }

    /// The network named by `s`, in any letter case.
    pub fn from_str(s: &str) -> (r: Result<Network, ConfigError>)
        ensures
            network_named(lower_of(s@)) matches Some(n) ==> r == Ok::<Network, ConfigError>(n),
            network_named(lower_of(s@)) is None ==> (r matches Err(
                ConfigError::InvalidNetwork(m),
            ) && m@ == lower_of(s@)),
    {
        Network::from_lowercase(lowercase(s))
    }

    /// The RPC endpoint used when none is configured.
    pub fn default_rpc_url(&self) -> (r: &'static str)
        ensures
            r@ == rpc_url_of(*self),
    {
        match self {
            Network::Testnet => "https://soroban-testnet.stellar.org",
            Network::Mainnet => "https://mainnet.sorobanrpc.com",
            Network::Sandbox => "http://localhost:8000",
        }
    }

    /// The passphrase that transactions on this network are signed with.
    pub fn passphrase(&self) -> (r: &'static str)
        ensures
            r@ == passphrase_of(*self),
    {
        match self {
            Network::Testnet => "Test SDF Network ; September 2015",
            Network::Mainnet => "Public Global Stellar Network ; September 2015",
            Network::Sandbox => "Standalone Network ; February 2017",
        }
    }
}

/// One network profile of a `soroban.toml` file.
#[derive(Debug, Clone)]
pub struct NetworkProfile {
    pub network: String,
    pub rpc_url: String,
    pub network_passphrase: String,
    pub description: Option<String>,
}

/// The `[default]` section of a `soroban.toml` file.
#[derive(Debug, Clone)]
pub struct DefaultProfile {
    pub network: Option<String>,
}

/// The contents of a `soroban.toml` file.
#[derive(Debug, Clone)]
pub struct SorobanToml {
    pub default: Option<DefaultProfile>,
    pub profile: Vec<(String, NetworkProfile)>,
}

/// Resolved runtime configuration with all required fields.
#[derive(Debug, Clone)]
pub struct Config {
    pub network: Network,
    pub rpc_url: String,
    pub network_passphrase: String,
    pub contract_id: Option<String>,
    pub account: Option<String>,
    pub rpc_timeout_ms: u64,
    pub debug: bool,
}

/// The RPC timeout used when none is configured.
pub const DEFAULT_RPC_TIMEOUT_MS: u64 = 30000;

/// Whether an RPC URL names the HTTP or HTTPS scheme.
pub open spec fn is_http_url(u: Seq<char>) -> bool {
    "http://"@.is_prefix_of(u) || "https://"@.is_prefix_of(u)
}

impl Config {
    /// Checks that the RPC URL and the passphrase are present and that the URL is HTTP(S).
    pub fn validate(_network: &Network, rpc_url: &str, passphrase: &str) -> (r: Result<
        (),
        ConfigError,
    >)
        ensures
            rpc_url@.len() == 0 ==> (r matches Err(ConfigError::MissingField(f)) && f@
                == "rpc_url"@),
            rpc_url@.len() > 0 && passphrase@.len() == 0 ==> (r matches Err(
                ConfigError::MissingField(f),
            ) && f@ == "network_passphrase"@),
            rpc_url@.len() > 0 && passphrase@.len() > 0 && !is_http_url(rpc_url@) ==> (r matches Err(
                ConfigError::ValidationError(m),
            ) && m@ == "RPC URL must start with http:// or https://: "@ + rpc_url@),
            r is Ok <==> rpc_url@.len() > 0 && passphrase@.len() > 0 && is_http_url(rpc_url@),
    {
        if rpc_url.unicode_len() == 0 {
            return Err(ConfigError::MissingField(String::from_str("rpc_url")));
        }
        if passphrase.unicode_len() == 0 {
            return Err(ConfigError::MissingField(String::from_str("network_passphrase")));
        }
        if !has_prefix(rpc_url, "http://") && !has_prefix(rpc_url, "https://") {
            let m = String::from_str("RPC URL must start with http:// or https://: ");
            return Err(ConfigError::ValidationError(m.concat(rpc_url)));
        }
        Ok(())
    }
}

/// The values that configuration is resolved from: the `SOROBAN_*` environment variables
/// that are set, and the parsed `soroban.toml` file, if one was read.
#[derive(Debug, Clone)]
pub struct ConfigSources {
    pub network: Option<String>,
    pub rpc_url: Option<String>,
    pub network_passphrase: Option<String>,
    pub contract_id: Option<String>,
    pub account: Option<String>,
    pub rpc_timeout_ms: Option<String>,
    pub debug: Option<String>,
    pub toml: Option<SorobanToml>,
}

/// What `u64::from_str` accepts from the characters `s`, if anything.
pub uninterp spec fn parsed_u64(s: Seq<char>) -> Option<u64>;

/// Relies on `u64::from_str`: the result depends on the characters alone.
#[verifier::external_body]
fn parse_u64(s: &str) -> (r: Option<u64>)
    ensures
        r == parsed_u64(s@),
{
    s.parse::<u64>().ok()
}

/// The code of a character with an ASCII capital letter lowered.
pub open spec fn ascii_lower(c: char) -> int {
    if 'A' <= c <= 'Z' {
        (c as u32) + 32
    } else {
        c as u32 as int
    }
}

/// Whether two strings are equal when ASCII letters are compared without case.
pub open spec fn eq_ignore_ascii_case_spec(a: Seq<char>, b: Seq<char>) -> bool {
    a.len() == b.len() && forall|i: int| 0 <= i < a.len() ==> ascii_lower(a[i]) == ascii_lower(b[i])
}

fn to_ascii_lower(c: char) -> (r: u32)
    ensures
        r == ascii_lower(c),
{
    if 'A' <= c && c <= 'Z' {
        (c as u32) + 32
    } else {
        c as u32
    }
}

/// Compares two strings, ASCII letters without case.
pub fn eq_ignore_ascii_case(a: &str, b: &str) -> (r: bool)
    ensures
        r == eq_ignore_ascii_case_spec(a@, b@),
{
    let n = a.unicode_len();
    if n != b.unicode_len() {
        return false;
    }
    let mut i: usize = 0;
    while i < n
        invariant
            n == a@.len(),
            a@.len() == b@.len(),
            0 <= i <= n,
            forall|j: int| 0 <= j < i ==> ascii_lower(a@[j]) == ascii_lower(b@[j]),
        decreases n - i,
    {
        if to_ascii_lower(a.get_char(i)) != to_ascii_lower(b.get_char(i)) {
            return false;
        }
        i = i + 1;
    }
    true
}

/// The network name that configuration selects: the environment's, else the file's default,
/// else `testnet`.
pub open spec fn selected_name(src: ConfigSources) -> Seq<char> {
    match src.network {
        Some(n) => n@,
        None => match src.toml {
            Some(t) => match t.default {
                Some(d) => match d.network {
                    Some(n) => n@,
                    None => "testnet"@,
                },
                None => "testnet"@,
            },
            None => "testnet"@,
        },
    }
}

/// The first profile that the file holds under `name`, if any.
pub open spec fn profile_for(src: ConfigSources, name: Seq<char>) -> Option<NetworkProfile> {
    match src.toml {
        Some(t) => if exists|i: int| 0 <= i < t.profile.len() && t.profile[i].0@ == name {
            let i = choose|i: int|
                0 <= i < t.profile.len() && t.profile[i].0@ == name && forall|j: int|
                    0 <= j < i ==> t.profile[j].0@ != name;
            Some(t.profile[i].1)
        } else {
            None
        },
        None => None,
    }
}

/// A setting: the environment's value, else the profile's, else the network's default.
pub open spec fn setting(env: Option<String>, profile: Option<Seq<char>>, default: Seq<char>) -> Seq<
    char,
> {
    match env {
        Some(v) => v@,
        None => match profile {
            Some(p) => p,
            None => default,
        },
    }
}

fn profile_index(t: &SorobanToml, name: &str) -> (r: Option<usize>)
    ensures
        r is None ==> forall|i: int| 0 <= i < t.profile.len() ==> t.profile[i].0@ != name@,
        r matches Some(i) ==> i < t.profile.len() && t.profile[i as int].0@ == name@ && forall|
            j: int,
        | 0 <= j < i ==> t.profile[j].0@ != name@,
{
    let mut i: usize = 0;
    while i < t.profile.len()
        invariant
            0 <= i <= t.profile.len(),
            forall|j: int| 0 <= j < i ==> t.profile[j].0@ != name@,
        decreases t.profile.len() - i,
    {
        if str_eq(t.profile[i].0.as_str(), name) {
            return Some(i);
        }
        i = i + 1;
    }
    None
}

fn first_of(env: &Option<String>, profile: Option<&String>, default: &str) -> (r: String)
    ensures
        r@ == setting(*env, if profile is Some { Some(profile->Some_0@) } else { None }, default@),
{
    match env {
        Some(v) => v.clone(),
        None => match profile {
            Some(p) => p.clone(),
            None => String::from_str(default),
        },
    }
}

/// The timeout setting: the parsed environment value, else the default.
pub open spec fn timeout_setting(v: Option<String>) -> u64 {
    match v {
        Some(s) => match parsed_u64(s@) {
            Some(n) => n,
            None => DEFAULT_RPC_TIMEOUT_MS,
        },
        None => DEFAULT_RPC_TIMEOUT_MS,
    }
}

/// The debug setting: on exactly when the environment says `true`, in any case.
pub open spec fn debug_setting(v: Option<String>) -> bool {
    match v {
        Some(s) => eq_ignore_ascii_case_spec(s@, "true"@),
        None => false,
    }
}

impl Config {
    /// Resolves the configuration from the environment's values and the file's.
    ///
    /// The network name comes from the environment, else from the file's default, else is
    /// `testnet`; the RPC URL and passphrase come from the environment, else from the file's
    /// profile under that name, else from the network's defaults; the result is validated.
    pub fn resolve(src: &ConfigSources) -> (r: Result<Config, ConfigError>)
        ensures
            network_named(lower_of(selected_name(*src))) is None ==> (r matches Err(
                ConfigError::InvalidNetwork(m),
            ) && m@ == lower_of(selected_name(*src))),
            network_named(lower_of(selected_name(*src))) matches Some(n) ==> {
                let p = profile_for(*src, selected_name(*src));
                let url = setting(
                    src.rpc_url,
                    if p is Some { Some(p->Some_0.rpc_url@) } else { None },
                    rpc_url_of(n),
                );
                let pass = setting(
                    src.network_passphrase,
                    if p is Some { Some(p->Some_0.network_passphrase@) } else { None },
                    passphrase_of(n),
                );
                &&& r is Ok <==> url.len() > 0 && pass.len() > 0 && is_http_url(url)
                &&& r matches Ok(c) ==> {
                    &&& c.network == n
                    &&& c.rpc_url@ == url
                    &&& c.network_passphrase@ == pass
                    &&& c.contract_id == src.contract_id
                    &&& c.account == src.account
                    &&& c.rpc_timeout_ms == timeout_setting(src.rpc_timeout_ms)
                    &&& c.debug == debug_setting(src.debug)
                }
            },
    {
        let name: String = match &src.network {
            Some(n) => n.clone(),
            None => match &src.toml {
                Some(t) => match &t.default {
                    Some(d) => match &d.network {
                        Some(n) => n.clone(),
                        None => String::from_str("testnet"),
                    },
                    None => String::from_str("testnet"),
                },
                None => String::from_str("testnet"),
            },
        };
        let network = Network::from_str(name.as_str())?;
        let ghost sel = selected_name(*src);
        let profile: Option<&NetworkProfile> = match &src.toml {
            Some(t) => match profile_index(t, name.as_str()) {
                Some(i) => {
                    proof {
                        let c = choose|c: int|
                            0 <= c < t.profile.len() && t.profile[c].0@ == sel && forall|j: int|
                                0 <= j < c ==> t.profile[j].0@ != sel;
                        assert(0 <= i < t.profile.len() && t.profile[i as int].0@ == sel);
                        if c < i {
                            assert(t.profile[c].0@ != sel);
                        }
                        if i < c {
                            assert(t.profile[i as int].0@ != sel);
                        }
                    }
                    Some(&t.profile[i].1)
                },
                None => None,
            },
            None => None,
        };
        let rpc_url = first_of(
            &src.rpc_url,
            match profile {
                Some(p) => Some(&p.rpc_url),
                None => None,
            },
            network.default_rpc_url(),
        );
        let network_passphrase = first_of(
            &src.network_passphrase,
            match profile {
                Some(p) => Some(&p.network_passphrase),
                None => None,
            },
            network.passphrase(),
        );
        let rpc_timeout_ms = match &src.rpc_timeout_ms {
            Some(s) => match parse_u64(s.as_str()) {
                Some(n) => n,
                None => DEFAULT_RPC_TIMEOUT_MS,
            },
            None => DEFAULT_RPC_TIMEOUT_MS,
        };
        let debug = match &src.debug {
            Some(s) => eq_ignore_ascii_case(s.as_str(), "true"),
            None => false,
        };
        Config::validate(&network, rpc_url.as_str(), network_passphrase.as_str())?;
        Ok(Config {
            network,
            rpc_url,
            network_passphrase,
            contract_id: src.contract_id.clone(),
            account: src.account.clone(),
            rpc_timeout_ms,
            debug,
        })
    }
}

} // verus!
