//! The process configuration: each setting comes from its command-line flag
//! where one was given, else from the environment, and is checked once at
//! startup.
use vstd::prelude::*;

use crate::get_hostname::LookupOutcome;
use crate::get_hostname::resolved_name;
use crate::get_hostname::get_hostname;
use crate::get_hostname::has_name;
use crate::get_hostname::is_name;
use crate::get_hostname::opt_view;

verus! {

#[verifier::external_type_specification]
#[verifier::external_body]
pub struct ExUri(hyper::Uri);

/// A setting that is missing or does not parse. Each is fatal at startup.
#[derive(Clone, Copy, Debug, PartialEq, Eq, Structural)]
pub enum ConfigError {
    /// Neither the flag nor `CHANNEL_ID` gives a channel.
    MissingChannelId,
    /// The channel given is not a non-zero decimal `u64`.
    InvalidChannelId,
    /// Neither the flag nor `DISCORD_TOKEN` gives a token.
    MissingDiscordToken,
    /// The token given is not in the form of a Discord token.
    InvalidDiscordToken,
    /// The address given is not a URI.
    InvalidUrl,
}

impl ConfigError {
    /// The message reported for this error.
    pub fn describe(&self) -> (r: String)
        ensures
            *self == ConfigError::MissingChannelId ==> r@ == "Missing or invalid Channel ID"@,
            *self == ConfigError::InvalidChannelId ==> r@ == "Invalid Channel ID"@,
            *self == ConfigError::MissingDiscordToken ==> r@ == "Missing or invalid Discord token"@,
            *self == ConfigError::InvalidDiscordToken ==> r@ == "The provided token was invalid"@,
            *self == ConfigError::InvalidUrl ==> r@ == "Invalid URL"@,
    {
        match self {
            ConfigError::MissingChannelId => String::from_str("Missing or invalid Channel ID"),
            ConfigError::InvalidChannelId => String::from_str("Invalid Channel ID"),
            ConfigError::MissingDiscordToken => String::from_str("Missing or invalid Discord token"),
            ConfigError::InvalidDiscordToken => String::from_str("The provided token was invalid"),
            ConfigError::InvalidUrl => String::from_str("Invalid URL"),
        }
    }
}

/// A decimal digit.
pub open spec fn is_digit(c: char) -> bool {
    '0' <= c <= '9'
}

/// The value of a run of decimal digits, most significant first.
pub open spec fn digits_value(s: Seq<char>) -> int
    decreases s.len(),
{
    if s.len() == 0 {
        0
    } else {
        digits_value(s.drop_last()) * 10 + (s.last() as u32 - '0' as u32)
    }
}

/// Where the digits start: after one leading `+`, if there is one.
pub open spec fn digits_start(s: Seq<char>) -> int {
    if s.len() > 0 && s[0] == '+' {
        1
    } else {
        0
    }
}

/// What a decimal `u64` reads as: an optional `+`, then one or more digits
/// whose value fits in a `u64`.
pub open spec fn parse_u64_spec(s: Seq<char>) -> Option<u64> {
    let d = s.subrange(digits_start(s), s.len() as int);
    if d.len() > 0 && (forall|i: int| 0 <= i < d.len() ==> is_digit(#[trigger] d[i])) && digits_value(d)
        <= u64::MAX {
        Some(digits_value(d) as u64)
    } else {
        None
    }
}

/// A prefix of a run of digits is worth no more than the whole run.
proof fn lemma_digits_prefix_le(s: Seq<char>, k: int)
    requires
        0 <= k <= s.len(),
        forall|i: int| 0 <= i < s.len() ==> is_digit(#[trigger] s[i]),
    ensures
        0 <= digits_value(s.subrange(0, k)) <= digits_value(s),
    decreases s.len(),
{
    if s.len() > 0 {
        let t = s.drop_last();
        if k == s.len() {
            assert(s.subrange(0, k) =~= s);
            lemma_digits_prefix_le(t, t.len() as int);
            assert(t.subrange(0, t.len() as int) =~= t);
        } else {
            lemma_digits_prefix_le(t, k);
            assert(t.subrange(0, k) =~= s.subrange(0, k));
            lemma_digits_prefix_le(t, t.len() as int);
            assert(t.subrange(0, t.len() as int) =~= t);
        }
    } else {
        assert(s.subrange(0, k) =~= s);
    }
}

/// Reads `s` as a decimal `u64`, as `str::parse::<u64>` does.
pub fn parse_u64(s: &str) -> (r: Option<u64>)
    ensures
        r == parse_u64_spec(s@),
{
    let n = s.unicode_len();
    let start: usize = if n > 0 && s.get_char(0) == '+' {
        1
    } else {
        0
    };
    let ghost d = s@.subrange(start as int, n as int);
    if start == n {
        return None;
    }
    let mut acc: u64 = 0;
    let mut i: usize = start;
    while i < n
        invariant
            start <= i <= n,
            n == s@.len(),
            start as int == digits_start(s@),
            d == s@.subrange(start as int, n as int),
            forall|j: int| start <= j < i ==> is_digit(#[trigger] s@[j]),
            acc as int == digits_value(s@.subrange(start as int, i as int)),
        decreases n - i,
    {
        let c = s.get_char(i);
        if !('0' <= c && c <= '9') {
            proof {
                assert(d[i - start] == c);
                assert(!is_digit(d[i - start]));
            }
            return None;
        }
        let dv: u64 = (c as u32 - '0' as u32) as u64;
        let ghost prefix = s@.subrange(start as int, i + 1);
        proof {
            assert(prefix.drop_last() =~= s@.subrange(start as int, i as int));
            assert(prefix.last() == c);
        }
        if acc > (u64::MAX - dv) / 10 {
            proof {
                assert(acc * 10 + dv > u64::MAX) by (nonlinear_arith)
                    requires
                        acc > (u64::MAX - dv) / 10,
                        dv <= 9,
                ;
                if forall|j: int| 0 <= j < d.len() ==> is_digit(#[trigger] d[j]) {
                    lemma_digits_prefix_le(d, i + 1 - start);
                    assert(d.subrange(0, i + 1 - start) =~= prefix);
                }
            }
            return None;
        }
        proof {
            assert(acc * 10 + dv <= u64::MAX) by (nonlinear_arith)
                requires
                    acc <= (u64::MAX - dv) / 10,
                    dv <= 9,
            ;
        }
        acc = acc * 10 + dv;
        i = i + 1;
    }
    proof {
        assert(s@.subrange(start as int, i as int) =~= d);
        assert forall|j: int| 0 <= j < d.len() implies is_digit(#[trigger] d[j]) by {
            assert(d[j] == s@[j + start]);
        }
    }
    Some(acc)
}

/// The setting that a flag and an environment variable give: the flag wins.
pub open spec fn chosen(flag: Option<String>, env: Option<String>) -> Option<String> {
    match flag {
        Some(v) => Some(v),
        None => env,
    }
}

/// The channel that a flag and an environment variable give, where it is a
/// non-zero decimal `u64`. Zero is refused because no chat channel has that
/// id: serenity's `ChannelId::new` panics on it.
pub open spec fn channel_choice(flag: Option<String>, env: Option<String>) -> Option<u64> {
    match chosen(flag, env) {
        Some(v) => match parse_u64_spec(v@) {
            Some(id) => if id != 0 {
                Some(id)
            } else {
                None
            },
            None => None,
        },
        None => None,
    }
}

/// `s` with every leading `Bot ` taken off.
pub open spec fn strip_bot_prefix(s: Seq<char>) -> Seq<char>
    decreases s.len(),
{
    if s.len() >= 4 && s.subrange(0, 4) == "Bot "@ {
        strip_bot_prefix(s.subrange(4, s.len() as int))
    } else {
        s
    }
}

/// The form of a Discord token: after any leading `Bot `, three non-empty
/// parts separated by `.`, and no other `.`.
pub open spec fn token_well_formed(s: Seq<char>) -> bool {
    let t = strip_bot_prefix(s);
    exists|i: int, j: int|
        0 < i && i + 1 < j && j + 1 < t.len() && t[i] == '.' && t[j] == '.' && (forall|k: int|
            0 <= k < t.len() && k != i && k != j ==> #[trigger] t[k] != '.')
}

/// Relies on `serenity::utils::validate_token`, which strips every leading
/// `Bot `, splits on `.` and accepts exactly three non-empty parts.
#[verifier::external_body]
fn validate_token(token: &str) -> (r: bool)
    ensures
        r == token_well_formed(token@),
{
    serenity::utils::validate_token(token).is_ok()
}

/// The URI that `s` parses as, or `None` where it is no URI.
pub uninterp spec fn uri_of(s: Seq<char>) -> Option<hyper::Uri>;

/// Relies on `hyper::Uri`'s `FromStr` (the `http` crate's URI parser); the
/// outcome depends on the text alone.
#[verifier::external_body]
fn parse_uri(s: &str) -> (r: Option<hyper::Uri>)
    ensures
        r == uri_of(s@),
{
    s.parse::<hyper::Uri>().ok()
}

/// The address that the flag, the environment and the default give.
pub open spec fn url_choice(flag: Option<String>, env: Option<String>) -> Seq<char> {
    match chosen(flag, env) {
        Some(u) => u@,
        None => default_url(),
    }
}

/// The address checked where neither the flag nor `WEBSITE_URL` gives one.
pub open spec fn default_url() -> Seq<char> {
    "http://acm.umn.edu"@
}

/// The settings given on the command line; each one not given there is taken
/// from the environment.
pub struct Options {
    channel_id: Option<String>,
    discord_token: Option<String>,
    hostname: Option<String>,
    url: Option<String>,
}

impl Options {
    /// The channel given by flag, if any.
    pub closed spec fn channel_id_flag(&self) -> Option<String> {
        self.channel_id
    }

    /// The token given by flag, if any.
    pub closed spec fn discord_token_flag(&self) -> Option<String> {
        self.discord_token
    }

    /// The host identity given by flag, if any.
    pub closed spec fn hostname_flag(&self) -> Option<String> {
        self.hostname
    }

    /// The address given by flag, if any.
    pub closed spec fn url_flag(&self) -> Option<String> {
        self.url
    }

    /// The settings as given on the command line.
    pub fn new(
        channel_id: Option<String>,
        discord_token: Option<String>,
        hostname: Option<String>,
        url: Option<String>,
    ) -> (r: Self)
        ensures
            r.channel_id_flag() == channel_id,
            r.discord_token_flag() == discord_token,
            r.hostname_flag() == hostname,
            r.url_flag() == url,
    {
        Options { channel_id, discord_token, hostname, url }
    }

    /// The channel setting checked: `None` where it gives a non-zero decimal
    /// `u64`, else the error that stops startup.
    pub fn channel_id_error(&self, env_channel_id: &Option<String>) -> (r: Option<ConfigError>)
        ensures
            match chosen(self.channel_id_flag(), *env_channel_id) {
                None => r == Some(ConfigError::MissingChannelId),
                Some(v) => if channel_choice(self.channel_id_flag(), *env_channel_id) is Some {
                    r is None
                } else {
                    r == Some(ConfigError::InvalidChannelId)
                },
            },
    {
        let id = match &self.channel_id {
            Some(id) => id,
            None => match env_channel_id {
                Some(id) => id,
                None => return Some(ConfigError::MissingChannelId),
            },
        };
        match parse_u64(id.as_str()) {
            Some(v) => {
                if v != 0 {
                    None
                } else {
                    Some(ConfigError::InvalidChannelId)
                }
            },
            None => Some(ConfigError::InvalidChannelId),
        }
    }

    /// The channel to message, from the flag or else from `env_channel_id`
    /// (the value of `CHANNEL_ID`), read as a decimal `u64`. Startup stops
    /// before this where the setting is missing or invalid.
    pub fn channel_id(&self, env_channel_id: Option<String>) -> (r: u64)
        requires
            channel_choice(self.channel_id_flag(), env_channel_id) is Some,
        ensures
            channel_choice(self.channel_id_flag(), env_channel_id) == Some(r),
    {
        let id = match &self.channel_id {
            Some(id) => id.clone(),
            None => match env_channel_id {
                Some(id) => id,
                None => return 0,
            },
        };
        match parse_u64(id.as_str()) {
            Some(v) => v,
            None => 0,
        }
    }

    /// The token setting checked: `None` where a well-formed token is given,
    /// else the error that stops startup.
    pub fn discord_token_error(&self, env_token: &Option<String>) -> (r: Option<ConfigError>)
        ensures
            match chosen(self.discord_token_flag(), *env_token) {
                None => r == Some(ConfigError::MissingDiscordToken),
                Some(t) => if token_well_formed(t@) {
                    r is None
                } else {
                    r == Some(ConfigError::InvalidDiscordToken)
                },
            },
    {
        let t = match &self.discord_token {
            Some(t) => t,
            None => match env_token {
                Some(t) => t,
                None => return Some(ConfigError::MissingDiscordToken),
            },
        };
        if validate_token(t.as_str()) {
            None
        } else {
            Some(ConfigError::InvalidDiscordToken)
        }
    }

    /// The Discord API token, from the flag or else from `env_token` (the
    /// value of `DISCORD_TOKEN`). Startup stops before this where neither
    /// gives one.
    pub fn discord_token(&self, env_token: Option<String>) -> (r: String)
        requires
            chosen(self.discord_token_flag(), env_token) is Some,
        ensures
            chosen(self.discord_token_flag(), env_token) matches Some(t) && r@ == t@,
    {
        match &self.discord_token {
            Some(t) => t.clone(),
            None => match env_token {
                Some(t) => t,
                None => String::new(),
            },
        }
    }

    /// The host identity: the flag where it gives a non-empty name, else the
    /// local system name, else what the remote lookup gave (see
    /// `get_hostname`). It is never empty.
    pub fn hostname(&self, local: Option<String>, remote: Option<LookupOutcome>) -> (r: String)
        ensures
            r@ == if is_name(opt_view(self.hostname_flag())) {
                self.hostname_flag().unwrap()@
            } else {
                resolved_name(local, remote)
            },
            r@.len() > 0,
    {
        if has_name(&self.hostname) {
            match &self.hostname {
                Some(h) => h.clone(),
                None => get_hostname(local, remote),
            }
        } else {
            get_hostname(local, remote)
        }
    }

    /// Whether the host identity still has to be found on this host, that
    /// is, whether no flag gave a non-empty one.
    pub fn needs_hostname_lookup(&self) -> (r: bool)
        ensures
            r == !is_name(opt_view(self.hostname_flag())),
    {
        !has_name(&self.hostname)
    }

    /// The address of the website to check as written: the flag, else
    /// `env_url` (the value of `WEBSITE_URL`), else the built-in default.
    pub fn url_text(&self, env_url: Option<String>) -> (r: String)
        ensures
            r@ == url_choice(self.url_flag(), env_url),
    {
        match &self.url {
            Some(u) => u.clone(),
            None => match env_url {
                Some(u) => u,
                None => String::from_str("http://acm.umn.edu"),
            },
        }
    }

    /// The address of the website to check, parsed. An address that is no
    /// URI stops startup; the default is not tried in its place.
    pub fn url(&self, env_url: Option<String>) -> (r: Result<hyper::Uri, ConfigError>)
        ensures
            match uri_of(url_choice(self.url_flag(), env_url)) {
                Some(u) => r == Ok::<hyper::Uri, ConfigError>(u),
                None => r == Err::<hyper::Uri, ConfigError>(ConfigError::InvalidUrl),
            },
    {
        let text = self.url_text(env_url);
        match parse_uri(text.as_str()) {
            Some(u) => Ok(u),
            None => Err(ConfigError::InvalidUrl),
        }
    }

    /// Sets up logging, with the level taken from `RUST_LOG`. Returns whether
    /// this call installed the logger (it is not installed twice).
    pub fn start_logger(&self) -> (r: bool) {
        init_logger()
    }
}

/// Relies on `env_logger::try_init_from_env`, which installs the global
/// logger configured from the environment and fails if one is installed
/// already.
#[verifier::external_body]
fn init_logger() -> (r: bool) {
    env_logger::try_init_from_env(env_logger::Env::new()).is_ok()
}

} // verus!
