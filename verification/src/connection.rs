//! Connection state and reconnect policy for the RTMP client.

use vstd::prelude::*;
use crate::text::{dec_digits, u64_to_string};

verus! {

use vstd::string::StringExecFns;
use vstd::arithmetic::power2::pow2;

/// Maximum reconnection attempts.
pub const MAX_RECONNECT_ATTEMPTS: u32 = 3;

/// Base reconnect delay in milliseconds.
pub const BASE_RECONNECT_DELAY_MS: u64 = 1000;

/// Maximum reconnect delay in milliseconds.
pub const MAX_RECONNECT_DELAY_MS: u64 = 10000;

/// Connection state for the RTMP client.
#[derive(Debug, Clone)]
pub enum ConnectionState {
    /// Not connected.
    Disconnected,
    /// Connecting to server.
    Connecting,
    /// Connected and streaming.
    Connected,
    /// Attempting to reconnect.
    Reconnecting { attempt: u32 },
    /// Connection failed permanently.
    Failed { reason: String },
}

impl ConnectionState {
    /// Check if connected.
    pub fn is_connected(&self) -> (r: bool)
        ensures
            r == (self is Connected),
    {
        matches!(self, Self::Connected)
    }

    /// Check if in a transient state (connecting or reconnecting).
    pub fn is_transient(&self) -> (r: bool)
        ensures
            r == (self is Connecting || self is Reconnecting),
    {
        matches!(self, Self::Connecting | Self::Reconnecting { .. })
    }

    /// Check if failed.
    pub fn is_failed(&self) -> (r: bool)
        ensures
            r == (self is Failed),
    {
        matches!(self, Self::Failed { .. })
    }

    /// The status message for this state.
    pub open spec fn message_spec(self) -> Seq<char> {
        match self {
            Self::Disconnected => "Disconnected"@,
            Self::Connecting => "Connecting..."@,
            Self::Connected => "Connected"@,
            Self::Reconnecting { attempt } => "Reconnecting ("@ + dec_digits(attempt as nat) + "/"@
                + dec_digits(MAX_RECONNECT_ATTEMPTS as nat) + ")"@,
            Self::Failed { reason } => "Failed: "@ + reason@,
        }
    }

    /// Get the status message for display.
    pub fn message(&self) -> (r: String)
        ensures
            r@ == self.message_spec(),
    {
        match self {
            Self::Disconnected => String::from_str("Disconnected"),
            Self::Connecting => String::from_str("Connecting..."),
            Self::Connected => String::from_str("Connected"),
            Self::Reconnecting { attempt } => {
                let mut s = String::from_str("Reconnecting (");
                let a = u64_to_string(*attempt as u64);
                s.append(a.as_str());
                s.append("/");
                let m = u64_to_string(MAX_RECONNECT_ATTEMPTS as u64);
                s.append(m.as_str());
                s.append(")");
                proof {
                    assert(s@ =~= self.message_spec());
                }
                s
            },
            Self::Failed { reason } => {
                let mut s = String::from_str("Failed: ");
                s.append(reason.as_str());
                proof {
                    assert(s@ =~= self.message_spec());
                }
                s
            },
        }
    }
}

impl Default for ConnectionState {
    fn default() -> (r: Self)
        ensures
            r is Disconnected,
    {
        Self::Disconnected
    }
}

/// The exponent applied for a reconnect attempt: attempts count from 1, and
/// attempt 0 is treated like attempt 1.
pub open spec fn backoff_exponent(attempt: u32) -> nat {
    if attempt == 0 {
        0
    } else {
        (attempt - 1) as nat
    }
}

/// The delay before a reconnect attempt: the base delay doubled once per
/// previous attempt, capped at the maximum delay.
pub open spec fn backoff_delay_ms(policy: ReconnectPolicy, attempt: u32) -> int {
    let raw = policy.base_delay_ms * pow2(backoff_exponent(attempt));
    if raw <= policy.max_delay_ms {
        raw as int
    } else {
        policy.max_delay_ms as int
    }
}

/// Reconnection policy configuration.
#[derive(Debug, Clone, Copy)]
pub struct ReconnectPolicy {
    /// Maximum number of reconnection attempts.
    pub max_attempts: u32,
    /// Base delay between attempts in milliseconds (exponential backoff
    /// applied).
    pub base_delay_ms: u64,
    /// Maximum delay between attempts in milliseconds.
    pub max_delay_ms: u64,
}

impl Default for ReconnectPolicy {
    fn default() -> (r: Self)
        ensures
            r.max_attempts == MAX_RECONNECT_ATTEMPTS,
            r.base_delay_ms == BASE_RECONNECT_DELAY_MS,
            r.max_delay_ms == MAX_RECONNECT_DELAY_MS,
    {
        Self {
            max_attempts: MAX_RECONNECT_ATTEMPTS,
            base_delay_ms: BASE_RECONNECT_DELAY_MS,
            max_delay_ms: MAX_RECONNECT_DELAY_MS,
        }
    }
}

impl ReconnectPolicy {
    /// Calculate the delay in milliseconds before the given attempt:
    /// `min(base_delay * 2^(attempt - 1), max_delay)`.
    pub fn delay_for_attempt(&self, attempt: u32) -> (r: u64)
        ensures
            r == backoff_delay_ms(*self, attempt),
    {
        let e: u32 = if attempt == 0 {
            0
        } else {
            attempt - 1
        };
        if e >= 64 {
            proof {
                if e > 64 {
                    vstd::arithmetic::power2::lemma_pow2_strictly_increases(64, e as nat);
                }
                vstd::arithmetic::power2::lemma2_to64_rest();
                assert(pow2(e as nat) >= pow2(64));
                if self.base_delay_ms == 0 {
                } else {
                    assert(self.base_delay_ms * pow2(e as nat) >= pow2(64)) by (nonlinear_arith)
                        requires
                            self.base_delay_ms >= 1,
                            pow2(e as nat) >= pow2(64),
                    ;
                }
            }
            if self.base_delay_ms == 0 {
                return 0;
            }
            return self.max_delay_ms;
        }
        let m: u64 = 1u64 << e;
        proof {
            vstd::bits::lemma_u64_pow2_no_overflow(e as nat);
            vstd::bits::lemma_u64_shl_is_mul(1u64, e as u64);
            assert(m == pow2(e as nat));
            vstd::arithmetic::power2::lemma_pow2_pos(e as nat);
        }
        if self.base_delay_ms > u64::MAX / m {
            proof {
                assert(self.base_delay_ms * m > u64::MAX) by (nonlinear_arith)
                    requires
                        m >= 1,
                        self.base_delay_ms > u64::MAX as int / m as int,
                ;
            }
            return self.max_delay_ms;
        }
        proof {
            assert(self.base_delay_ms * m <= u64::MAX) by (nonlinear_arith)
                requires
                    m >= 1,
                    self.base_delay_ms <= u64::MAX as int / m as int,
            ;
        }
        let raw = self.base_delay_ms * m;
        if raw <= self.max_delay_ms {
            raw
        } else {
            self.max_delay_ms
        }
    }

    /// Check if another attempt is allowed: attempts are numbered from 1, and
    /// retrying is permitted while fewer than `max_attempts` have failed.
    pub fn should_retry(&self, attempt: u32) -> (r: bool)
        ensures
            r == (attempt < self.max_attempts),
    {
        attempt < self.max_attempts
    }
}

} // verus!
