//! The run configuration: one validated, immutable value per process.
//!
//! Every tunable reaches the process as raw text (a role selector and a
//! handful of unsigned decimals). It is parsed and validated here exactly
//! once, before any connection is made; any missing or malformed setting is a
//! single typed configuration error, fatal to the process. The parsers state
//! precisely which strings they accept and which value they yield.

use vstd::prelude::*;

verus! {

/// Which role this process runs.
#[derive(Clone, Copy, PartialEq, Eq, Debug)]
pub enum Role {
    Producer,
    Consumer,
}

/// The immutable, process-scoped run configuration.
#[derive(Clone, PartialEq, Eq, Debug)]
pub struct RunConfig {
    pub role: Role,
    /// Where the broker listens; handed to the transport untouched.
    pub broker_address: Vec<u8>,
    /// A label for this consumer's sample lines, if the deployment names its
    /// consumers.
    pub consumer_name: Option<Vec<u8>>,
    /// Byte length of each data payload.
    pub message_len: usize,
    /// How many data messages the producer publishes.
    pub message_count: u64,
    /// Pause between two sends, in milliseconds.
    pub inter_send_delay_millis: u64,
    /// The unacknowledged-message limit set on the consumer's channel.
    pub prefetch_limit: u16,
    /// Simulated per-message processing cost, in milliseconds.
    pub workload_delay_millis: u64,
    /// Whether a broadcast `"start"` signal synchronizes the run's beginning.
    pub use_control_channel: bool,
}

/// Why a configuration was rejected.
#[derive(Clone, Copy, PartialEq, Eq, Debug)]
pub enum ConfigError {
    /// A required setting is absent.
    MissingValue,
    /// The role selector names neither role.
    UnknownRole,
    /// A numeric setting is not an unsigned decimal that fits its field.
    MalformedNumber,
}

/// An ASCII decimal digit.
pub open spec fn is_digit(b: u8) -> bool {
    48 <= b <= 57
}

/// Every byte is an ASCII decimal digit.
pub open spec fn all_digits(s: Seq<u8>) -> bool {
    forall|i: int| 0 <= i < s.len() ==> is_digit(#[trigger] s[i])
}

/// The number an all-digit string denotes in decimal.
pub open spec fn decimal_value(s: Seq<u8>) -> int
    decreases s.len(),
{
    if s.len() == 0 {
        0
    } else {
        decimal_value(s.drop_last()) * 10 + (s.last() - 48)
    }
}

/// The denoted number is never negative.
pub proof fn lemma_decimal_value_nonneg(s: Seq<u8>)
    requires
        all_digits(s),
    ensures
        decimal_value(s) >= 0,
    decreases s.len(),
{
    if s.len() > 0 {
        assert(all_digits(s.drop_last())) by {
            assert(forall|i: int| 0 <= i < s.len() - 1 ==> s.drop_last()[i] == s[i]);
        }
        lemma_decimal_value_nonneg(s.drop_last());
        assert(is_digit(s[s.len() - 1]));
    }
}

/// A digit prefix never denotes more than the whole string: appending digits
/// can only grow the value.
pub proof fn lemma_decimal_prefix_le(s: Seq<u8>, j: int)
    requires
        all_digits(s),
        0 <= j <= s.len(),
    ensures
        decimal_value(s.take(j)) <= decimal_value(s),
    decreases s.len() - j,
{
    if j == s.len() {
        assert(s.take(j) =~= s);
    } else {
        assert(s.take(j + 1).drop_last() =~= s.take(j));
        assert(s.take(j + 1).last() == s[j]);
        assert(all_digits(s.take(j))) by {
            assert(forall|i: int| 0 <= i < j ==> s.take(j)[i] == s[i]);
        }
        lemma_decimal_value_nonneg(s.take(j));
        assert(is_digit(s[j]));
        assert(decimal_value(s.take(j)) <= decimal_value(s.take(j + 1)));
        lemma_decimal_prefix_le(s, j + 1);
    }
}

/// Parse an unsigned decimal. Accepts exactly the nonempty all-digit strings
/// whose value fits, and yields exactly the denoted value.
pub fn parse_u64(s: &Vec<u8>) -> (r: Option<u64>)
    ensures
        (r is Some <==> s@.len() > 0 && all_digits(s@) && decimal_value(s@) <= u64::MAX),
        (r matches Some(n) ==> n == decimal_value(s@)),
{
    if s.len() == 0 {
        return None;
    }
    let mut acc: u64 = 0;
    let mut i: usize = 0;
    proof {
        assert(s@.take(0) =~= Seq::<u8>::empty());
    }
    while i < s.len()
        invariant
            i <= s@.len(),
            all_digits(s@.take(i as int)),
            acc == decimal_value(s@.take(i as int)),
        decreases s@.len() - i,
    {
        let b = s[i];
        if b < 48 || b > 57 {
            assert(!is_digit(s@[i as int]));
            assert(!all_digits(s@));
            return None;
        }
        proof {
            assert(s@.take(i as int + 1).drop_last() =~= s@.take(i as int));
            assert(s@.take(i as int + 1).last() == s@[i as int]);
        }
        let acc10 = match acc.checked_mul(10) {
            Some(x) => x,
            None => {
                proof {
                    assert(decimal_value(s@.take(i as int + 1)) > u64::MAX);
                    if all_digits(s@) {
                        lemma_decimal_prefix_le(s@, i as int + 1);
                    }
                }
                return None;
            },
        };
        let acc2 = match acc10.checked_add((b - 48) as u64) {
            Some(x) => x,
            None => {
                proof {
                    assert(decimal_value(s@.take(i as int + 1)) > u64::MAX);
                    if all_digits(s@) {
                        lemma_decimal_prefix_le(s@, i as int + 1);
                    }
                }
                return None;
            },
        };
        acc = acc2;
        i += 1;
    }
    proof {
        assert(s@.take(i as int) =~= s@);
    }
    Some(acc)
}

/// Parse an unsigned decimal that must fit in 16 bits (the prefetch limit).
pub fn parse_u16(s: &Vec<u8>) -> (r: Option<u16>)
    ensures
        (r is Some <==> s@.len() > 0 && all_digits(s@) && decimal_value(s@) <= u16::MAX),
        (r matches Some(n) ==> n == decimal_value(s@)),
{
    match parse_u64(s) {
        Some(n) => if n <= 65535 {
            Some(n as u16)
        } else {
            None
        },
        None => None,
    }
}

/// Parse an unsigned decimal that must fit a byte count.
pub fn parse_usize(s: &Vec<u8>) -> (r: Option<usize>)
    ensures
        (r is Some <==> s@.len() > 0 && all_digits(s@) && decimal_value(s@) <= usize::MAX),
        (r matches Some(n) ==> n == decimal_value(s@)),
{
    match parse_u64(s) {
        Some(n) => if n <= usize::MAX as u64 {
            Some(n as usize)
        } else {
            None
        },
        None => None,
    }
}

/// The role selector spelling for the producer.
pub open spec fn producer_name_seq() -> Seq<u8> {
    seq![80u8, 82u8, 79u8, 68u8, 85u8, 67u8, 69u8, 82u8]
}

/// The role selector spelling for the consumer.
pub open spec fn consumer_name_seq() -> Seq<u8> {
    seq![67u8, 79u8, 78u8, 83u8, 85u8, 77u8, 69u8, 82u8]
}

fn producer_name() -> (r: Vec<u8>)
    ensures
        r@ == producer_name_seq(),
{
    let v: Vec<u8> = vec![80u8, 82u8, 79u8, 68u8, 85u8, 67u8, 69u8, 82u8];
    proof {
        assert(v@ =~= producer_name_seq());
    }
    v
}

fn consumer_name() -> (r: Vec<u8>)
    ensures
        r@ == consumer_name_seq(),
{
    let v: Vec<u8> = vec![67u8, 79u8, 78u8, 83u8, 85u8, 77u8, 69u8, 82u8];
    proof {
        assert(v@ =~= consumer_name_seq());
    }
    v
}

/// Parse the role selector: exactly one spelling names each role.
pub fn parse_role(s: &Vec<u8>) -> (r: Option<Role>)
    ensures
        (r == Some(Role::Producer) <==> s@ == producer_name_seq()),
        (r == Some(Role::Consumer) <==> s@ == consumer_name_seq()),
        (r is None <==> s@ != producer_name_seq() && s@ != consumer_name_seq()),
{
    proof {
        assert(producer_name_seq()[0] != consumer_name_seq()[0]);
    }
    if crate::envelope::bytes_eq(s, &producer_name()) {
        Some(Role::Producer)
    } else if crate::envelope::bytes_eq(s, &consumer_name()) {
        Some(Role::Consumer)
    } else {
        None
    }
}

/// The settings as they reach the process: raw text, possibly absent.
pub struct RawConfig {
    pub role: Option<Vec<u8>>,
    pub broker_address: Option<Vec<u8>>,
    pub consumer_name: Option<Vec<u8>>,
    pub message_len: Option<Vec<u8>>,
    pub message_count: Option<Vec<u8>>,
    pub inter_send_delay: Option<Vec<u8>>,
    pub prefetch_limit: Option<Vec<u8>>,
    pub workload_delay: Option<Vec<u8>>,
    pub use_control_channel: bool,
}

/// Every required setting is present; the consumer name alone is optional.
pub open spec fn raw_present(raw: RawConfig) -> bool {
    &&& raw.role is Some
    &&& raw.broker_address is Some
    &&& raw.message_len is Some
    &&& raw.message_count is Some
    &&& raw.inter_send_delay is Some
    &&& raw.prefetch_limit is Some
    &&& raw.workload_delay is Some
}

/// The role selector names a role.
pub open spec fn raw_role_ok(raw: RawConfig) -> bool {
    raw.role matches Some(v) && (v@ == producer_name_seq() || v@ == consumer_name_seq())
}

/// Every numeric setting is an unsigned decimal that fits its field.
pub open spec fn raw_numbers_ok(raw: RawConfig) -> bool {
    &&& raw.message_len matches Some(v) && v@.len() > 0 && all_digits(v@) && decimal_value(v@)
        <= usize::MAX
    &&& raw.message_count matches Some(v) && v@.len() > 0 && all_digits(v@) && decimal_value(v@)
        <= u64::MAX
    &&& raw.inter_send_delay matches Some(v) && v@.len() > 0 && all_digits(v@) && decimal_value(v@)
        <= u64::MAX
    &&& raw.prefetch_limit matches Some(v) && v@.len() > 0 && all_digits(v@) && decimal_value(v@)
        <= u16::MAX
    &&& raw.workload_delay matches Some(v) && v@.len() > 0 && all_digits(v@) && decimal_value(v@)
        <= u64::MAX
}

/// Validate the raw settings once and build the process configuration.
/// Absence is reported before a bad role, and a bad role before a bad
/// number; exactly one typed error comes back for a rejected configuration.
pub fn build_config(raw: RawConfig) -> (r: Result<RunConfig, ConfigError>)
    ensures
        (r is Ok <==> raw_present(raw) && raw_role_ok(raw) && raw_numbers_ok(raw)),
        (r == Err::<RunConfig, ConfigError>(ConfigError::MissingValue) <==> !raw_present(raw)),
        (r == Err::<RunConfig, ConfigError>(ConfigError::UnknownRole) <==> raw_present(raw) && !raw_role_ok(raw)),
        (r == Err::<RunConfig, ConfigError>(ConfigError::MalformedNumber) <==> raw_present(raw) && raw_role_ok(raw)
            && !raw_numbers_ok(raw)),
        (r matches Ok(c) ==> {
            &&& raw.role matches Some(v) && (c.role == Role::Producer <==> v@
                == producer_name_seq())
            &&& raw.role matches Some(v) && (c.role == Role::Consumer <==> v@
                == consumer_name_seq())
            &&& raw.message_len matches Some(v) && c.message_len == decimal_value(v@)
            &&& raw.message_count matches Some(v) && c.message_count == decimal_value(v@)
            &&& raw.inter_send_delay matches Some(v) && c.inter_send_delay_millis == decimal_value(
                v@,
            )
            &&& raw.prefetch_limit matches Some(v) && c.prefetch_limit == decimal_value(v@)
            &&& raw.workload_delay matches Some(v) && c.workload_delay_millis == decimal_value(v@)
            &&& raw.broker_address matches Some(v) && c.broker_address == v
            &&& c.consumer_name == raw.consumer_name
            &&& c.use_control_channel == raw.use_control_channel
        }),
{
    if raw.role.is_none() || raw.broker_address.is_none() || raw.message_len.is_none()
        || raw.message_count.is_none() || raw.inter_send_delay.is_none()
        || raw.prefetch_limit.is_none() || raw.workload_delay.is_none() {
        return Err(ConfigError::MissingValue);
    }
    let role_opt = match &raw.role {
        Some(v) => parse_role(v),
        None => None,
    };
    let role = match role_opt {
        Some(ro) => ro,
        None => {
            return Err(ConfigError::UnknownRole);
        },
    };
    let message_len = match &raw.message_len {
        Some(v) => parse_usize(v),
        None => None,
    };
    let message_len = match message_len {
        Some(n) => n,
        None => {
            return Err(ConfigError::MalformedNumber);
        },
    };
    let message_count = match &raw.message_count {
        Some(v) => parse_u64(v),
        None => None,
    };
    let message_count = match message_count {
        Some(n) => n,
        None => {
            return Err(ConfigError::MalformedNumber);
        },
    };
    let inter_send_delay_millis = match &raw.inter_send_delay {
        Some(v) => parse_u64(v),
        None => None,
    };
    let inter_send_delay_millis = match inter_send_delay_millis {
        Some(n) => n,
        None => {
            return Err(ConfigError::MalformedNumber);
        },
    };
    let prefetch_limit = match &raw.prefetch_limit {
        Some(v) => parse_u16(v),
        None => None,
    };
    let prefetch_limit = match prefetch_limit {
        Some(n) => n,
        None => {
            return Err(ConfigError::MalformedNumber);
        },
    };
    let workload_delay_millis = match &raw.workload_delay {
        Some(v) => parse_u64(v),
        None => None,
    };
    let workload_delay_millis = match workload_delay_millis {
        Some(n) => n,
        None => {
            return Err(ConfigError::MalformedNumber);
        },
    };
    let broker_address = match raw.broker_address {
        Some(v) => v,
        None => {
            return Err(ConfigError::MissingValue);
        },
    };
    Ok(
        RunConfig {
            role,
            broker_address,
            consumer_name: raw.consumer_name,
            message_len,
            message_count,
            inter_send_delay_millis,
            prefetch_limit,
            workload_delay_millis,
            use_control_channel: raw.use_control_channel,
        },
    )
}

} // verus!
