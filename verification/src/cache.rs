//! The Redis-backed stores of the server: refresh-token sessions, request rate
//! limits, webhook deduplication and scan status. The Redis commands are sent
//! by the caller; these types hold the connection and decide the keys, the
//! values written and how replies are read.
use vstd::prelude::*;
use vstd::string::StringExecFns;
use redis::aio::ConnectionManager;
use crate::digest::hex_digit;
use crate::text::{decimal_text, i64_to_decimal, signed_decimal_text, u64_to_decimal};

verus! {

#[verifier::external_type_specification]
#[verifier::external_body]
pub struct ExConnectionManager(ConnectionManager);

/// A managed connection to Redis.
pub struct RedisPool {
    pub con: ConnectionManager,
}

/// Refresh-token sessions, one key per token id.
pub struct SessionStore {
    redis: RedisPool,
}

/// Sliding-window request limits, one sorted set per limited key.
pub struct RateLimiter {
    redis: RedisPool,
}

/// Remembers webhook deliveries for an hour to drop repeats.
pub struct WebhookDedup {
    redis: RedisPool,
}

/// Progress and cancellation of running scans.
pub struct ScanStatusCache {
    redis: RedisPool,
}

impl SessionStore {
    /// The connection the store uses.
    pub closed spec fn spec_pool(&self) -> RedisPool {
        self.redis
    }

    /// A store on a connection.
    pub fn new(redis: RedisPool) -> (r: SessionStore)
        ensures
            r.spec_pool() == redis,
    {
        SessionStore { redis }
    }

    /// The connection of the store.
    pub fn pool(&self) -> (r: &RedisPool)
        ensures
            *r == self.spec_pool(),
    {
        &self.redis
    }

    /// The key that marks a refresh token as valid: `session:refresh:<jti>`.
    pub fn refresh_key(jti: &str) -> (r: String)
        ensures
            r@ == "session:refresh:"@ + jti@,
    {
        let mut r = String::from_str("session:refresh:");
        r.append(jti);
        r
    }
}

/// Where a window of `window_secs` seconds ending at `now` starts.
pub open spec fn window_start(now: i64, window_secs: u64) -> int {
    now - (window_secs as i64)
}

impl RateLimiter {
    /// The connection the limiter uses.
    pub closed spec fn spec_pool(&self) -> RedisPool {
        self.redis
    }

    /// A limiter on a connection.
    pub fn new(redis: RedisPool) -> (r: RateLimiter)
        ensures
            r.spec_pool() == redis,
    {
        RateLimiter { redis }
    }

    /// The connection of the limiter.
    pub fn pool(&self) -> (r: &RedisPool)
        ensures
            *r == self.spec_pool(),
    {
        &self.redis
    }

    /// The sorted set of the requests under a key: `ratelimit:<key>`.
    pub fn limit_key(key: &str) -> (r: String)
        ensures
            r@ == "ratelimit:"@ + key@,
    {
        let mut r = String::from_str("ratelimit:");
        r.append(key);
        r
    }

    /// The first second of the window that ends at `now`; the length is taken
    /// as an `i64`, wrapping as the cast does.
    pub fn window_start(now: i64, window_secs: u64) -> (r: i64)
        requires
            i64::MIN <= now - (window_secs as i64) <= i64::MAX,
        ensures
            r == window_start(now, window_secs),
    {
        now - window_secs as i64
    }

    /// A request is let through while fewer than `max_requests` requests fell
    /// in the window.
    pub fn allows(count: u64, max_requests: u64) -> (r: bool)
        ensures
            r == (count < max_requests),
    {
        count < max_requests
    }

    /// The member that records a request made at `now`: `<key>:<now>`.
    pub fn request_member(key: &str, now: i64) -> (r: String)
        ensures
            r@ == key@ + ":"@ + signed_decimal_text(now as int),
    {
        let mut r = String::from_str(key);
        r.append(":");
        let d = i64_to_decimal(now);
        r.append(d.as_str());
        r
    }

    /// How long the set lives after a request: one second more than the window.
    pub fn expiry_secs(window_secs: u64) -> (r: u64)
        requires
            window_secs < u64::MAX,
        ensures
            r == window_secs + 1,
    {
        window_secs + 1
    }
}

/// Seconds a delivery is remembered.
pub const DEDUP_TTL_SECS: u64 = 3600;

impl WebhookDedup {
    /// The connection the deduplicator uses.
    pub closed spec fn spec_pool(&self) -> RedisPool {
        self.redis
    }

    /// A deduplicator on a connection.
    pub fn new(redis: RedisPool) -> (r: WebhookDedup)
        ensures
            r.spec_pool() == redis,
    {
        WebhookDedup { redis }
    }

    /// The connection of the deduplicator.
    pub fn pool(&self) -> (r: &RedisPool)
        ensures
            *r == self.spec_pool(),
    {
        &self.redis
    }

    /// The key that remembers a delivery: `webhook:dedup:<event id>`.
    pub fn dedup_key(event_id: &str) -> (r: String)
        ensures
            r@ == "webhook:dedup:"@ + event_id@,
    {
        let mut r = String::from_str("webhook:dedup:");
        r.append(event_id);
        r
    }

    /// A delivery is a repeat when setting its key only-if-absent wrote nothing
    /// (the reply is nil).
    pub fn is_duplicate_reply(reply: Option<String>) -> (r: bool)
        ensures
            r == reply is None,
    {
        reply.is_none()
    }
}

/// Seconds scan status is kept.
pub const STATUS_TTL_SECS: u64 = 86400;

/// What a progress record read back holds: its `p` field as an unsigned
/// integer and its `ph` field as a string, where present.
#[derive(Debug, Clone)]
pub struct StoredProgress {
    pub p: Option<u64>,
    pub ph: Option<String>,
}

/// How serde_json writes one character of a string: `"` and `\` behind a
/// backslash; backspace, tab, line feed, form feed and carriage return as
/// `\b`, `\t`, `\n`, `\f`, `\r`; the other characters below U+0020 as
/// `\u00` and two lowercase hexadecimal digits; every other character as it is.
pub open spec fn json_escape_char(c: char) -> Seq<char> {
    let n = c as u32;
    if c == '"' {
        seq!['\\', '"']
    } else if c == '\\' {
        seq!['\\', '\\']
    } else if n == 8 {
        seq!['\\', 'b']
    } else if n == 9 {
        seq!['\\', 't']
    } else if n == 10 {
        seq!['\\', 'n']
    } else if n == 12 {
        seq!['\\', 'f']
    } else if n == 13 {
        seq!['\\', 'r']
    } else if n < 32 {
        seq!['\\', 'u', '0', '0', hex_digit(n as int / 16), hex_digit(n as int % 16)]
    } else {
        seq![c]
    }
}

/// The characters of a string, each written as `json_escape_char` writes it.
pub open spec fn json_escaped(s: Seq<char>) -> Seq<char>
    decreases s.len(),
{
    if s.len() == 0 {
        Seq::empty()
    } else {
        json_escaped(s.drop_last()) + json_escape_char(s.last())
    }
}

/// The JSON text of a string: in double quotes, its characters escaped.
pub open spec fn json_quoted(s: Seq<char>) -> Seq<char> {
    seq!['"'] + json_escaped(s) + seq!['"']
}

/// The JSON text of a string value (`serde_json::Value::from`, displayed with
/// the compact formatter, which escapes as `json_quoted` states).
#[verifier::external_body]
fn json_string(s: &str) -> (r: String)
    ensures
        r@ == json_quoted(s@),
{
    serde_json::Value::from(s).to_string()
}

/// The record of a scan's progress: `{"p":<progress>,"ph":<phase>}`.
pub open spec fn progress_record(progress: u8, phase: Seq<char>) -> Seq<char> {
    "{\"p\":"@ + decimal_text(progress as nat) + ",\"ph\":"@ + json_quoted(phase) + "}"@
}

/// The progress and phase a record read back gives: none stored, or a record
/// that is not a JSON object, reads as progress 0 in phase `unknown`; a missing
/// field reads as 0 or `unknown`; the progress keeps its low eight bits.
pub open spec fn progress_read(stored: Option<StoredProgress>) -> (u8, Seq<char>) {
    match stored {
        None => (0, "unknown"@),
        Some(s) => (
            match s.p { Some(p) => p as u8, None => 0 },
            match s.ph { Some(ph) => ph@, None => "unknown"@ },
        ),
    }
}

impl ScanStatusCache {
    /// The connection the cache uses.
    pub closed spec fn spec_pool(&self) -> RedisPool {
        self.redis
    }

    /// A cache on a connection.
    pub fn new(redis: RedisPool) -> (r: ScanStatusCache)
        ensures
            r.spec_pool() == redis,
    {
        ScanStatusCache { redis }
    }

    /// The connection of the cache.
    pub fn pool(&self) -> (r: &RedisPool)
        ensures
            *r == self.spec_pool(),
    {
        &self.redis
    }

    /// The key of a scan's progress: `scan:<id>:progress`.
    pub fn progress_key(scan_id: &str) -> (r: String)
        ensures
            r@ == "scan:"@ + scan_id@ + ":progress"@,
    {
        let mut r = String::from_str("scan:");
        r.append(scan_id);
        r.append(":progress");
        r
    }

    /// The key that marks a scan as cancelled: `scan:<id>:cancelled`.
    pub fn cancelled_key(scan_id: &str) -> (r: String)
        ensures
            r@ == "scan:"@ + scan_id@ + ":cancelled"@,
    {
        let mut r = String::from_str("scan:");
        r.append(scan_id);
        r.append(":cancelled");
        r
    }

    /// The record written for a scan's progress.
    pub fn progress_value(progress: u8, phase: &str) -> (r: String)
        ensures
            r@ == progress_record(progress, phase@),
    {
        let mut r = String::from_str("{\"p\":");
        let d = u64_to_decimal(progress as u64);
        r.append(d.as_str());
        r.append(",\"ph\":");
        let q = json_string(phase);
        r.append(q.as_str());
        r.append("}");
        r
    }

    /// The progress and phase of a record read back.
    pub fn read_progress(stored: Option<StoredProgress>) -> (r: (u8, String))
        ensures
            r.0 == progress_read(stored).0,
            r.1@ == progress_read(stored).1,
    {
        match stored {
            None => (0, String::from_str("unknown")),
            Some(s) => {
                let p: u8 = match s.p {
                    Some(p) => p as u8,
                    None => 0,
                };
                let ph = match s.ph {
                    Some(ph) => ph,
                    None => String::from_str("unknown"),
                };
                (p, ph)
            },
        }
    }
}

} // verus!
