//! RTMP endpoint addressing, wire packets and the reconnect policy steps.
//!
//! The accepted URL grammar is `rtmp://host[:port]/app` and
//! `rtmps://host[:port]/app`, with 1935 as the default port and the path
//! (leading slashes removed) as the application name; the stream key travels
//! separately.

use vstd::prelude::*;
use crate::connection::{ConnectionState, ReconnectPolicy, backoff_delay_ms};
use crate::errors::TransportError;
use crate::text::{all_dec_digits, parse_i64, parse_i64_spec, str_starts_with};

verus! {

use vstd::string::StrSliceExecFns;
use vstd::string::StringExecFns;

/// Channel capacity for outgoing wire packets.
pub const PACKET_CHANNEL_CAPACITY: usize = 300;

/// The default RTMP port.
pub const DEFAULT_RTMP_PORT: u16 = 1935;

/// A packet to send over RTMP: an FLV tag payload with its timing and
/// scheduling flags.
#[derive(Debug, Clone)]
pub struct RtmpPacket {
    /// Packet data (an FLV tag payload).
    pub data: Vec<u8>,
    /// Presentation timestamp in milliseconds.
    pub timestamp_ms: u32,
    /// Whether this is a video packet.
    pub is_video: bool,
    /// Whether this is a keyframe (for video).
    pub is_keyframe: bool,
    /// Whether this is a codec sequence header.
    pub is_sequence_header: bool,
}

impl RtmpPacket {
    /// Whether the chunk layer may drop this packet under pressure: only
    /// non-keyframe video may be dropped; audio and keyframes may not.
    pub fn can_be_dropped(&self) -> (r: bool)
        ensures
            r == (self.is_video && !self.is_keyframe),
    {
        self.is_video && !self.is_keyframe
    }
}

/// Transport statistics.
#[derive(Debug, Clone, Copy)]
pub struct TransportStatistics {
    /// Bytes handed to the socket.
    pub bytes_sent: u64,
    /// Packets published.
    pub packets_sent: u64,
    /// Packets dropped on send failure.
    pub packets_dropped: u64,
}

impl Default for TransportStatistics {
    fn default() -> (r: Self)
        ensures
            r.bytes_sent == 0,
            r.packets_sent == 0,
            r.packets_dropped == 0,
    {
        Self { bytes_sent: 0, packets_sent: 0, packets_dropped: 0 }
    }
}

/// A parsed RTMP endpoint.
#[derive(Debug, Clone)]
pub struct RtmpEndpoint {
    /// Host name or address.
    pub host: String,
    /// TCP port.
    pub port: u16,
    /// Application name (the URL path, leading slashes removed).
    pub app: String,
    /// Whether the scheme was `rtmps`.
    pub tls: bool,
}

/// The position of the first `/` in `s`, or its length when there is none.
pub open spec fn first_slash(s: Seq<char>) -> int
    decreases s.len(),
{
    if s.len() == 0 {
        0
    } else if s[0] == '/' {
        0
    } else {
        1 + first_slash(s.drop_first())
    }
}

/// The position of the first `:` in `s`, or its length when there is none.
pub open spec fn first_colon(s: Seq<char>) -> int
    decreases s.len(),
{
    if s.len() == 0 {
        0
    } else if s[0] == ':' {
        0
    } else {
        1 + first_colon(s.drop_first())
    }
}

/// The number of leading slashes of `s`.
pub open spec fn leading_slashes(s: Seq<char>) -> int
    decreases s.len(),
{
    if s.len() == 0 {
        0
    } else if s[0] != '/' {
        0
    } else {
        1 + leading_slashes(s.drop_first())
    }
}

/// The meaning of an RTMP URL: its host, port, application name and whether
/// it asks for TLS — or nothing, when the URL is not of the accepted
/// grammar.
pub open spec fn parse_rtmp_url_spec(s: Seq<char>) -> Option<(Seq<char>, u16, Seq<char>, bool)> {
    let tls = s.len() >= 8 && s.subrange(0, 8) == "rtmps://"@;
    let plain = s.len() >= 7 && s.subrange(0, 7) == "rtmp://"@;
    if !tls && !plain {
        None
    } else {
        let rest = if tls {
            s.skip(8)
        } else {
            s.skip(7)
        };
        let slash = first_slash(rest);
        let authority = rest.take(slash);
        let app = rest.skip(slash).skip(leading_slashes(rest.skip(slash)));
        let colon = first_colon(authority);
        let host = authority.take(colon);
        let port_digits = authority.skip(colon + 1);
        if host.len() == 0 || app.len() == 0 {
            None
        } else if colon == authority.len() {
            Some((host, DEFAULT_RTMP_PORT, app, tls))
        } else {
            if port_digits.len() == 0 || !all_dec_digits(port_digits) {
                None
            } else {
                match parse_i64_spec(port_digits) {
                    Some(v) => if 0 <= v <= 65535 {
                        Some((host, v as u16, app, tls))
                    } else {
                        None
                    },
                    None => None,
                }
            }
        }
    }
}

/// Find the first occurrence of `target` in `s`, or the length of `s`.
fn find_char(s: &str, target: char) -> (r: usize)
    requires
        target == '/' || target == ':',
    ensures
        target == '/' ==> r == first_slash(s@),
        target == ':' ==> r == first_colon(s@),
        r <= s@.len(),
{
    let n = s.unicode_len();
    let mut i: usize = 0;
    while i < n
        invariant
            i <= n,
            n == s@.len(),
            forall|j: int| 0 <= j < i ==> #[trigger] s@[j] != target,
        decreases n - i,
    {
        if s.get_char(i) == target {
            proof {
                lemma_first_at(s@, target, i as int);
            }
            return i;
        }
        i += 1;
    }
    proof {
        lemma_first_none(s@, target);
    }
    n
}

/// If `s[i]` is the first occurrence of `c`, the scan position is `i`.
proof fn lemma_first_at(s: Seq<char>, c: char, i: int)
    requires
        0 <= i < s.len(),
        s[i] == c,
        forall|j: int| 0 <= j < i ==> #[trigger] s[j] != c,
    ensures
        c == '/' ==> first_slash(s) == i,
        c == ':' ==> first_colon(s) == i,
    decreases i,
{
    if i > 0 {
        assert(forall|j: int| 0 <= j < i - 1 ==> #[trigger] s.drop_first()[j] != c);
        assert(s.drop_first()[i - 1] == c);
        lemma_first_at(s.drop_first(), c, i - 1);
    }
}

/// If `c` never occurs, the scan position is the length.
proof fn lemma_first_none(s: Seq<char>, c: char)
    requires
        forall|j: int| 0 <= j < s.len() ==> #[trigger] s[j] != c,
    ensures
        c == '/' ==> first_slash(s) == s.len(),
        c == ':' ==> first_colon(s) == s.len(),
    decreases s.len(),
{
    if s.len() > 0 {
        assert(forall|j: int| 0 <= j < s.drop_first().len() ==> #[trigger] s.drop_first()[j] != c);
        lemma_first_none(s.drop_first(), c);
    }
}

/// Count the leading slashes of `s`.
fn count_leading_slashes(s: &str) -> (r: usize)
    ensures
        r == leading_slashes(s@),
        r <= s@.len(),
{
    let n = s.unicode_len();
    let mut i: usize = 0;
    while i < n
        invariant
            i <= n,
            n == s@.len(),
            forall|j: int| 0 <= j < i ==> #[trigger] s@[j] == '/',
        decreases n - i,
    {
        if s.get_char(i) != '/' {
            proof {
                lemma_leading_at(s@, i as int);
            }
            return i;
        }
        i += 1;
    }
    proof {
        lemma_leading_all(s@);
    }
    n
}

proof fn lemma_leading_at(s: Seq<char>, i: int)
    requires
        0 <= i < s.len(),
        s[i] != '/',
        forall|j: int| 0 <= j < i ==> #[trigger] s[j] == '/',
    ensures
        leading_slashes(s) == i,
    decreases i,
{
    if i > 0 {
        assert(forall|j: int| 0 <= j < i - 1 ==> #[trigger] s.drop_first()[j] == '/');
        assert(s.drop_first()[i - 1] != '/');
        lemma_leading_at(s.drop_first(), i - 1);
    }
}

proof fn lemma_leading_all(s: Seq<char>)
    requires
        forall|j: int| 0 <= j < s.len() ==> #[trigger] s[j] == '/',
    ensures
        leading_slashes(s) == s.len(),
    decreases s.len(),
{
    if s.len() > 0 {
        assert(forall|j: int| 0 <= j < s.drop_first().len() ==> #[trigger] s.drop_first()[j]
            == '/');
        lemma_leading_all(s.drop_first());
    }
}

/// Parse an RTMP URL into its endpoint. URLs of any other scheme, without a
/// host, without an application name, or with a non-numeric or out-of-range
/// port are rejected as `InvalidUrl`.
#[verifier::loop_isolation(false)]
pub fn parse_rtmp_url(url: &str) -> (r: Result<RtmpEndpoint, TransportError>)
    ensures
        match r {
            Ok(ep) => parse_rtmp_url_spec(url@) matches Some(parts) && parts.0 == ep.host@
                && parts.1 == ep.port && parts.2 == ep.app@ && parts.3 == ep.tls,
            Err(e) => parse_rtmp_url_spec(url@) is None && e is InvalidUrl,
        },
{
    let n = url.unicode_len();
    let tls = str_starts_with(url, "rtmps://");
    let plain = str_starts_with(url, "rtmp://");
    proof {
        reveal_strlit("rtmps://");
        reveal_strlit("rtmp://");
    }
    if !tls && !plain {
        return Err(
            TransportError::InvalidUrl(
                String::from_str("URL must start with rtmp:// or rtmps://"),
            ),
        );
    }
    let scheme_len: usize = if tls {
        8
    } else {
        7
    };
    let rest = url.substring_char(scheme_len, n);
    proof {
        assert(rest@ =~= if tls {
            url@.skip(8)
        } else {
            url@.skip(7)
        });
    }
    let rest_len = rest.unicode_len();
    let slash = find_char(rest, '/');
    let authority = rest.substring_char(0, slash);
    let path = rest.substring_char(slash, rest_len);
    proof {
        assert(authority@ =~= rest@.take(first_slash(rest@)));
        assert(path@ =~= rest@.skip(first_slash(rest@)));
    }
    let lead = count_leading_slashes(path);
    let path_len = path.unicode_len();
    let app = path.substring_char(lead, path_len);
    proof {
        assert(app@ =~= rest@.skip(first_slash(rest@)).skip(
            leading_slashes(rest@.skip(first_slash(rest@))),
        ));
    }
    let auth_len = authority.unicode_len();
    let colon = find_char(authority, ':');
    let host = authority.substring_char(0, colon);
    proof {
        assert(host@ =~= authority@.take(first_colon(authority@)));
    }
    if host.unicode_len() == 0 || app.unicode_len() == 0 {
        return Err(
            TransportError::InvalidUrl(String::from_str("Missing host or application name")),
        );
    }
    if colon == auth_len {
        return Ok(
            RtmpEndpoint {
                host: String::from_str(host),
                port: DEFAULT_RTMP_PORT,
                app: String::from_str(app),
                tls,
            },
        );
    }
    let port_str = authority.substring_char(colon + 1, auth_len);
    proof {
        assert(port_str@ =~= authority@.skip(first_colon(authority@) + 1));
    }
    let port_len = port_str.unicode_len();
    if port_len == 0 {
        return Err(TransportError::InvalidUrl(String::from_str("Empty port")));
    }
    // Reject any non-digit before numeric parsing, signs included.
    let mut k: usize = 0;
    while k < port_len
        invariant
            k <= port_len,
            port_len == port_str@.len(),
            forall|j: int| 0 <= j < k ==> crate::text::is_dec_digit(#[trigger] port_str@[j]),
        decreases port_len - k,
    {
        let c = port_str.get_char(k);
        let cv = c as u32;
        if cv < 48 || cv > 57 {
            proof {
                assert(('0' as int) == 48 && ('9' as int) == 57);
                assert(c as int == cv as int);
                assert(!crate::text::is_dec_digit(port_str@[k as int]));
                assert(!all_dec_digits(authority@.skip(first_colon(authority@) + 1)));
            }
            return Err(TransportError::InvalidUrl(String::from_str("Invalid port")));
        }
        proof {
            assert(('0' as int) == 48 && ('9' as int) == 57);
            assert(c as int == cv as int);
            assert(crate::text::is_dec_digit(port_str@[k as int]));
        }
        k += 1;
    }
    match parse_i64(port_str) {
        Some(v) => {
            if v <= 65535 {
                proof {
                    lemma_all_digits_nonneg_value(port_str@);
                }
                Ok(
                    RtmpEndpoint {
                        host: String::from_str(host),
                        port: v as u16,
                        app: String::from_str(app),
                        tls,
                    },
                )
            } else {
                Err(TransportError::InvalidUrl(String::from_str("Port out of range")))
            }
        },
        None => Err(TransportError::InvalidUrl(String::from_str("Invalid port"))),
    }
}

/// A nonempty all-digit string parses to its nonnegative digit value.
proof fn lemma_all_digits_nonneg_value(s: Seq<char>)
    requires
        s.len() > 0,
        all_dec_digits(s),
    ensures
        parse_i64_spec(s) matches Some(v) ==> v >= 0,
{
    assert(s[0] != '-' && s[0] != '+');
    if parse_i64_spec(s) is Some {
        crate::text::lemma_digits_val_nonneg(s);
    }
}

/// What the connection loop does after a failed connect attempt: either wait
/// and retry with the attempt counter advanced, or give up.
#[derive(Debug, Clone)]
pub enum ReconnectDecision {
    /// Sleep for the delay, move to `Reconnecting`, then try again.
    Retry { next_attempt: u32, delay_ms: u64, state: ConnectionState },
    /// Stop trying: the connection has failed for good.
    GiveUp { attempts: u32, state: ConnectionState, error: TransportError },
}

/// Decide what follows a failed connect attempt: the attempt counter
/// advances; while the policy allows another try the loop backs off by the
/// policy's delay, and once attempts are exhausted the connection fails with
/// `ReconnectExhausted`.
pub fn reconnect_step(policy: &ReconnectPolicy, attempt: u32) -> (r: ReconnectDecision)
    requires
        attempt < u32::MAX,
    ensures
        ({
            let next = (attempt + 1) as u32;
            if next < policy.max_attempts {
                r matches ReconnectDecision::Retry { next_attempt, delay_ms, state }
                    && next_attempt == next && delay_ms == backoff_delay_ms(*policy, next)
                    && (state matches ConnectionState::Reconnecting { attempt: a } && a == next)
            } else {
                r matches ReconnectDecision::GiveUp { attempts, state, error } && attempts == next
                    && state is Failed && (error matches TransportError::ReconnectExhausted(n)
                    && n == next)
            }
        }),
{
    let next = attempt + 1;
    if policy.should_retry(next) {
        ReconnectDecision::Retry {
            next_attempt: next,
            delay_ms: policy.delay_for_attempt(next),
            state: ConnectionState::Reconnecting { attempt: next },
        }
    } else {
        let error = TransportError::ReconnectExhausted(next);
        let reason = error.message();
        ReconnectDecision::GiveUp {
            attempts: next,
            state: ConnectionState::Failed { reason },
            error,
        }
    }
}

} // verus!
