use uptime_watch::get_hostname::LookupOutcome;
use uptime_watch::options::{parse_u64, ConfigError, Options};

fn s(v: &str) -> Option<String> {
    Some(v.to_string())
}

#[test]
fn parse_u64_reads_decimal() {
    assert_eq!(parse_u64("0"), Some(0));
    assert_eq!(parse_u64("42"), Some(42));
    assert_eq!(parse_u64("+7"), Some(7));
    assert_eq!(parse_u64("381880193251409931"), Some(381880193251409931));
    assert_eq!(parse_u64("18446744073709551615"), Some(u64::MAX));
}

#[test]
fn parse_u64_rejects() {
    assert_eq!(parse_u64(""), None);
    assert_eq!(parse_u64("+"), None);
    assert_eq!(parse_u64("-1"), None);
    assert_eq!(parse_u64("12a"), None);
    assert_eq!(parse_u64(" 1"), None);
    assert_eq!(parse_u64("18446744073709551616"), None);
    assert_eq!(parse_u64("99999999999999999999x"), None);
}

#[test]
fn parse_u64_agrees_with_std() {
    for t in ["0", "00012", "+0", "++1", "1+", "4294967296", "184467440737095516150", "9"] {
        assert_eq!(parse_u64(t), t.parse::<u64>().ok(), "{}", t);
    }
}

#[test]
fn channel_id_flag_wins_over_env() {
    let o = Options::new(s("123"), None, None, None);
    assert_eq!(o.channel_id_error(&s("456")), None);
    assert_eq!(o.channel_id(s("456")), 123);
    let o = Options::new(None, None, None, None);
    assert_eq!(o.channel_id_error(&s("456")), None);
    assert_eq!(o.channel_id(s("456")), 456);
}

#[test]
fn channel_id_errors() {
    let o = Options::new(None, None, None, None);
    assert_eq!(o.channel_id_error(&None), Some(ConfigError::MissingChannelId));
    let o = Options::new(s("general"), None, None, None);
    assert_eq!(o.channel_id_error(&s("1")), Some(ConfigError::InvalidChannelId));
    let o = Options::new(s("0"), None, None, None);
    assert_eq!(o.channel_id_error(&None), Some(ConfigError::InvalidChannelId));
    assert_eq!(ConfigError::InvalidChannelId.describe(), "Invalid Channel ID");
    assert_eq!(ConfigError::MissingChannelId.describe(), "Missing or invalid Channel ID");
}

const GOOD_TOKEN: &str = "Mjg4NzYwMjQxMzYzODc3ODg4.C_ikow.j3VupLBuE1QWZng3TMGH0z_UAwg";

#[test]
fn discord_token_selection() {
    let o = Options::new(None, s(GOOD_TOKEN), None, None);
    assert_eq!(o.discord_token_error(&s("other")), None);
    assert_eq!(o.discord_token(s("other")), GOOD_TOKEN);
    let o = Options::new(None, None, None, None);
    assert_eq!(o.discord_token_error(&s(GOOD_TOKEN)), None);
    assert_eq!(o.discord_token(s(GOOD_TOKEN)), GOOD_TOKEN);
    assert_eq!(o.discord_token(s("other")), "other");
}

#[test]
fn discord_token_errors() {
    let o = Options::new(None, None, None, None);
    assert_eq!(o.discord_token_error(&None), Some(ConfigError::MissingDiscordToken));
    assert_eq!(ConfigError::MissingDiscordToken.describe(), "Missing or invalid Discord token");
    for bad in ["", "SECRET-REDACTED", "a.b", "a..c", ".b.c", "a.b.", "a.b.c.d", "Bot "] {
        assert_eq!(o.discord_token_error(&s(bad)), Some(ConfigError::InvalidDiscordToken), "{}", bad);
    }
    assert_eq!(ConfigError::InvalidDiscordToken.describe(), "The provided token was invalid");
}

#[test]
fn discord_token_with_bot_prefix_is_accepted() {
    let o = Options::new(None, None, None, None);
    assert_eq!(o.discord_token_error(&s("Bot a.b.c")), None);
    assert_eq!(o.discord_token_error(&s("Bot Bot a.b.c")), None);
}

#[test]
fn url_selection_and_default() {
    let o = Options::new(None, None, None, s("https://example.org"));
    assert_eq!(o.url_text(s("http://env.example")), "https://example.org");
    let o = Options::new(None, None, None, None);
    assert_eq!(o.url_text(s("http://env.example")), "http://env.example");
    assert_eq!(o.url_text(None), "http://acm.umn.edu");
    let u = o.url(None).unwrap();
    assert_eq!(u.host(), Some("acm.umn.edu"));
}

#[test]
fn invalid_url_is_rejected_without_fallback() {
    let o = Options::new(None, None, None, s("http://exa mple.org"));
    assert_eq!(o.url(None).err(), Some(ConfigError::InvalidUrl));
    assert_eq!(ConfigError::InvalidUrl.describe(), "Invalid URL");
    let o = Options::new(None, None, None, None);
    assert_eq!(o.url(s("")).err(), Some(ConfigError::InvalidUrl));
}

#[test]
fn hostname_override_wins() {
    let o = Options::new(None, None, s("override"), None);
    assert!(!o.needs_hostname_lookup());
    assert_eq!(o.hostname(s("local"), None), "override");
    let o = Options::new(None, None, None, None);
    assert!(o.needs_hostname_lookup());
    assert_eq!(o.hostname(s("local"), None), "local");
    let remote = Some(LookupOutcome::Response { status: 200, body: b"{\"hostname\":\"host-7\"}".to_vec() });
    assert_eq!(o.hostname(None, remote), "host-7");
    assert_eq!(o.hostname(None, Some(LookupOutcome::TransportError)), "UNKNOWN");
}

#[test]
fn start_logger_installs_once() {
    let o = Options::new(None, None, None, None);
    let first = o.start_logger();
    let second = o.start_logger();
    assert!(first);
    assert!(!second);
}

#[test]
fn ping_is_answered_with_pong() {
    assert_eq!(uptime_watch::handler::Handler.ping_reply(), "pong");
}

#[test]
fn empty_hostname_flag_is_not_used() {
    let o = Options::new(None, None, s(""), None);
    assert!(o.needs_hostname_lookup());
    assert_eq!(o.hostname(s("local"), None), "local");
    assert_eq!(o.hostname(None, None), "UNKNOWN");
}

#[test]
fn url_parses_chosen_address() {
    let o = Options::new(None, None, None, s("https://example.org/status"));
    let u = o.url(s("http://env.example")).unwrap();
    assert_eq!(u.host(), Some("example.org"));
    assert_eq!(u.path(), "/status");
}
