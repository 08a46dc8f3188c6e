//! Configuration from the process environment.
//!
//! The unverified rim reads the raw variables; the parsing, the defaults and
//! the error that names the offending variable are verified here. Bind
//! addresses stay as the bytes they were given in — whether they denote an
//! address is for the socket layer to decide.

use vstd::prelude::*;

use crate::{EnvVarError, PektinError, PektinResult};

verus! {

/// The environment variables the server reads.
#[derive(Debug, Clone, Copy, PartialEq, Eq, Structural)]
pub enum EnvVar {
    BindAddress,
    BindPort,
    RedisHostname,
    RedisPort,
    RedisUsername,
    RedisPassword,
    RedisRetrySeconds,
    TcpTimeoutSeconds,
    UseDoh,
    DohBindAddress,
    DohBindPort,
}

/// The name under which each variable stands in the environment.
pub open spec fn env_var_name(v: EnvVar) -> Seq<char> {
    match v {
        EnvVar::BindAddress => "BIND_ADDRESS"@,
        EnvVar::BindPort => "BIND_PORT"@,
        EnvVar::RedisHostname => "REDIS_HOSTNAME"@,
        EnvVar::RedisPort => "REDIS_PORT"@,
        EnvVar::RedisUsername => "REDIS_USERNAME"@,
        EnvVar::RedisPassword => "REDIS_PASSWORD"@,
        EnvVar::RedisRetrySeconds => "REDIS_RETRY_SECONDS"@,
        EnvVar::TcpTimeoutSeconds => "TCP_TIMEOUT_SECONDS"@,
        EnvVar::UseDoh => "USE_DOH"@,
        EnvVar::DohBindAddress => "DOH_BIND_ADDRESS"@,
        EnvVar::DohBindPort => "DOH_BIND_PORT"@,
    }
}

impl EnvVar {
    /// The variable's name in the environment.
    pub fn name(&self) -> (r: &'static str)
        ensures
            r@ == env_var_name(*self),
    {
        match self {
            EnvVar::BindAddress => "BIND_ADDRESS",
            EnvVar::BindPort => "BIND_PORT",
            EnvVar::RedisHostname => "REDIS_HOSTNAME",
            EnvVar::RedisPort => "REDIS_PORT",
            EnvVar::RedisUsername => "REDIS_USERNAME",
            EnvVar::RedisPassword => "REDIS_PASSWORD",
            EnvVar::RedisRetrySeconds => "REDIS_RETRY_SECONDS",
            EnvVar::TcpTimeoutSeconds => "TCP_TIMEOUT_SECONDS",
            EnvVar::UseDoh => "USE_DOH",
            EnvVar::DohBindAddress => "DOH_BIND_ADDRESS",
            EnvVar::DohBindPort => "DOH_BIND_PORT",
        }
    }
}

/// Every byte is an ASCII decimal digit.
pub open spec fn all_digits(s: Seq<u8>) -> bool {
    forall|i: int| 0 <= i < s.len() ==> 48 <= #[trigger] s[i] <= 57
}

/// The number a digit text denotes.
pub open spec fn dec_val(s: Seq<u8>) -> int
    decreases s.len(),
{
    if s.len() == 0 {
        0
    } else {
        dec_val(s.drop_last()) * 10 + (s.last() - 48)
    }
}

/// The digits of a decimal text: an optional single leading `+` is not part
/// of the value.
pub open spec fn dec_text(s: Seq<u8>) -> Seq<u8> {
    if s.len() > 0 && s[0] == 43u8 {
        s.skip(1)
    } else {
        s
    }
}

/// A decimal text — digits after an optional leading `+`, at least one —
/// whose value is at most `max`.
pub open spec fn dec_ok(s: Seq<u8>, max: int) -> bool {
    dec_text(s).len() > 0 && all_digits(dec_text(s)) && dec_val(dec_text(s)) <= max
}

/// On digit texts the value is nonnegative and weakly grows with each
/// further digit.
proof fn lemma_dec_val_grows(s: Seq<u8>, k: int)
    requires
        all_digits(s),
        0 <= k <= s.len(),
    ensures
        0 <= dec_val(s.take(k)) <= dec_val(s),
    decreases s.len() - k,
{
    if k == s.len() {
        assert(s.take(k) =~= s);
        lemma_dec_val_nonneg(s);
    } else {
        lemma_dec_val_grows(s, k + 1);
        lemma_dec_val_nonneg(s.take(k));
        assert(s.take(k + 1).drop_last() =~= s.take(k));
        assert(s.take(k + 1).last() == s[k]);
    }
}

proof fn lemma_dec_val_nonneg(s: Seq<u8>)
    requires
        all_digits(s),
    ensures
        dec_val(s) >= 0,
    decreases s.len(),
{
    if s.len() > 0 {
        lemma_dec_val_nonneg(s.drop_last());
        assert(all_digits(s.drop_last())) by {
            assert(forall|i: int|
                0 <= i < s.drop_last().len() ==> s.drop_last()[i] == #[trigger] s[i]);
        }
    }
}

/// Parses a decimal number of at most `max`: an optional leading `+`, then
/// at least one digit. Succeeds exactly on such text within the bound.
pub fn parse_dec(s: &[u8], max: u64) -> (r: Option<u64>)
    ensures
        match r {
            Some(v) => dec_ok(s@, max as int) && v == dec_val(dec_text(s@)),
            None => !dec_ok(s@, max as int),
        },
{
    if s.len() > 0 && s[0] == 43u8 {
        let (_, body) = s.split_at(1);
        proof {
            assert(body@ =~= dec_text(s@));
        }
        parse_digits(body, max)
    } else {
        parse_digits(s, max)
    }
}

/// Parses a bare digit text of at most `max`.
fn parse_digits(s: &[u8], max: u64) -> (r: Option<u64>)
    ensures
        match r {
            Some(v) => s@.len() > 0 && all_digits(s@) && dec_val(s@) <= max && v == dec_val(s@),
            None => !(s@.len() > 0 && all_digits(s@) && dec_val(s@) <= max as int),
        },
{
    if s.len() == 0 {
        return None;
    }
    let mut acc: u64 = 0;
    let mut i: usize = 0;
    while i < s.len()
        invariant
            0 <= i <= s@.len(),
            all_digits(s@.take(i as int)),
            acc == dec_val(s@.take(i as int)),
            acc <= max,
        decreases s@.len() - i,
    {
        let b = s[i];
        if b < 48 || b > 57 {
            proof {
                assert(!all_digits(s@));
            }
            return None;
        }
        let d = (b - 48) as u64;
        proof {
            assert(s@.take(i + 1).drop_last() =~= s@.take(i as int));
            assert(s@.take(i + 1).last() == s@[i as int]);
        }
        if d > max || acc > (max - d) / 10 {
            proof {
                assert(dec_val(s@.take(i + 1)) > max);
                if all_digits(s@) {
                    lemma_dec_val_grows(s@, i + 1);
                }
            }
            return None;
        }
        acc = acc * 10 + d;
        i += 1;
    }
    proof {
        assert(s@.take(s@.len() as int) =~= s@);
    }
    Some(acc)
}

/// The raw environment, one entry per variable the server reads; `None`
/// where the variable is unset.
#[derive(Debug, Clone, PartialEq, Eq)]
pub struct EnvValues {
    pub bind_address: Option<Vec<u8>>,
    pub bind_port: Option<Vec<u8>>,
    pub redis_hostname: Option<Vec<u8>>,
    pub redis_port: Option<Vec<u8>>,
    pub redis_username: Option<Vec<u8>>,
    pub redis_password: Option<Vec<u8>>,
    pub redis_retry_seconds: Option<Vec<u8>>,
    pub tcp_timeout_seconds: Option<Vec<u8>>,
    pub use_doh: Option<Vec<u8>>,
    pub doh_bind_address: Option<Vec<u8>>,
    pub doh_bind_port: Option<Vec<u8>>,
}

/// A variable's bytes, or its default where it is unset.
pub open spec fn env_or(v: Option<Vec<u8>>, d: Seq<u8>) -> Seq<u8> {
    match v {
        Some(x) => x@,
        None => d,
    }
}

/// The password is absent: unset, or set to nothing.
pub open spec fn password_missing(v: Option<Vec<u8>>) -> bool {
    match v {
        Some(p) => p@.len() == 0,
        None => true,
    }
}

/// The server's configuration, as validated values. The two bind addresses
/// are carried as the bytes the environment held (defaulting to `::`); the
/// socket layer parses them.
#[derive(Debug, Clone, PartialEq, Eq)]
pub struct Config {
    pub bind_address: Vec<u8>,
    pub bind_port: u16,
    pub redis_hostname: Vec<u8>,
    pub redis_username: Vec<u8>,
    pub redis_password: Vec<u8>,
    pub redis_port: u16,
    pub redis_retry_seconds: u64,
    pub tcp_timeout_seconds: u64,
    pub use_doh: bool,
    pub doh_bind_address: Vec<u8>,
    pub doh_bind_port: u16,
}

impl Config {
    /// Reads the configuration out of the raw environment. Ports must be
    /// decimal and fit sixteen bits, the two durations must be decimal, the
    /// store password must be present and nonempty; every other variable
    /// falls back to its default. The first offence, in the order the fields
    /// are read, is reported against its variable's name.
    pub fn from_env(env: EnvValues) -> (r: PektinResult<Config>)
        ensures
            ({
                let bp = env_or(env.bind_port, default_bind_port());
                let rp = env_or(env.redis_port, default_redis_port());
                let rr = env_or(env.redis_retry_seconds, default_redis_retry_seconds());
                let tt = env_or(env.tcp_timeout_seconds, default_tcp_timeout_seconds());
                let dp = env_or(env.doh_bind_port, default_doh_bind_port());
                if !dec_ok(bp, 65535) {
                    r == Err::<Config, PektinError>(
                        PektinError::CommonError(EnvVarError::Invalid(EnvVar::BindPort)),
                    )
                } else if !dec_ok(rp, 65535) {
                    r == Err::<Config, PektinError>(
                        PektinError::CommonError(EnvVarError::Invalid(EnvVar::RedisPort)),
                    )
                } else if password_missing(env.redis_password) {
                    r == Err::<Config, PektinError>(
                        PektinError::CommonError(EnvVarError::Missing(EnvVar::RedisPassword)),
                    )
                } else if !dec_ok(rr, u64::MAX as int) {
                    r == Err::<Config, PektinError>(
                        PektinError::CommonError(EnvVarError::Invalid(EnvVar::RedisRetrySeconds)),
                    )
                } else if !dec_ok(tt, u64::MAX as int) {
                    r == Err::<Config, PektinError>(
                        PektinError::CommonError(EnvVarError::Invalid(EnvVar::TcpTimeoutSeconds)),
                    )
                } else if !dec_ok(dp, 65535) {
                    r == Err::<Config, PektinError>(
                        PektinError::CommonError(EnvVarError::Invalid(EnvVar::DohBindPort)),
                    )
                } else {
                    r matches Ok(c) && {
                        &&& c.bind_address@ == env_or(env.bind_address, default_bind_address())
                        &&& c.bind_port == dec_val(dec_text(bp))
                        &&& c.redis_hostname@ == env_or(
                            env.redis_hostname,
                            default_redis_hostname(),
                        )
                        &&& c.redis_username@ == env_or(
                            env.redis_username,
                            default_redis_username(),
                        )
                        &&& (env.redis_password matches Some(p) && c.redis_password@ == p@)
                        &&& c.redis_port == dec_val(dec_text(rp))
                        &&& c.redis_retry_seconds == dec_val(dec_text(rr))
                        &&& c.tcp_timeout_seconds == dec_val(dec_text(tt))
                        &&& c.use_doh == (env_or(env.use_doh, default_use_doh())
                            == default_use_doh())
                        &&& c.doh_bind_address@ == env_or(
                            env.doh_bind_address,
                            default_doh_bind_address(),
                        )
                        &&& c.doh_bind_port == dec_val(dec_text(dp))
                    }
                }
            }),
    {
        let bind_address = env_value(env.bind_address, default_bind_address_bytes());
        let bp = env_value(env.bind_port, default_bind_port_bytes());
        let bind_port = match parse_dec(bp.as_slice(), 65535) {
            Some(v) => v as u16,
            None => {
                return Err(PektinError::CommonError(EnvVarError::Invalid(EnvVar::BindPort)));
            },
        };
        let redis_hostname = env_value(env.redis_hostname, default_redis_hostname_bytes());
        let rp = env_value(env.redis_port, default_redis_port_bytes());
        let redis_port = match parse_dec(rp.as_slice(), 65535) {
            Some(v) => v as u16,
            None => {
                return Err(PektinError::CommonError(EnvVarError::Invalid(EnvVar::RedisPort)));
            },
        };
        let redis_username = env_value(env.redis_username, default_redis_username_bytes());
        let redis_password = match env.redis_password {
            Some(p) => {
                if p.len() == 0 {
                    return Err(
                        PektinError::CommonError(EnvVarError::Missing(EnvVar::RedisPassword)),
                    );
                }
                p
            },
            None => {
                return Err(PektinError::CommonError(EnvVarError::Missing(EnvVar::RedisPassword)));
            },
        };
        let rr = env_value(env.redis_retry_seconds, default_redis_retry_seconds_bytes());
        let redis_retry_seconds = match parse_dec(rr.as_slice(), u64::MAX) {
            Some(v) => v,
            None => {
                return Err(
                    PektinError::CommonError(EnvVarError::Invalid(EnvVar::RedisRetrySeconds)),
                );
            },
        };
        let tt = env_value(env.tcp_timeout_seconds, default_tcp_timeout_seconds_bytes());
        let tcp_timeout_seconds = match parse_dec(tt.as_slice(), u64::MAX) {
            Some(v) => v,
            None => {
                return Err(
                    PektinError::CommonError(EnvVarError::Invalid(EnvVar::TcpTimeoutSeconds)),
                );
            },
        };
        let ud = env_value(env.use_doh, default_use_doh_bytes());
        let use_doh = crate::name::bytes_eq(&ud, &default_use_doh_bytes());
        let dp = env_value(env.doh_bind_port, default_doh_bind_port_bytes());
        let doh_bind_port = match parse_dec(dp.as_slice(), 65535) {
            Some(v) => v as u16,
            None => {
                return Err(PektinError::CommonError(EnvVarError::Invalid(EnvVar::DohBindPort)));
            },
        };
        let doh_bind_address = env_value(env.doh_bind_address, default_doh_bind_address_bytes());
        Ok(
            Config {
                bind_address,
                bind_port,
                redis_hostname,
                redis_username,
                redis_password,
                redis_port,
                redis_retry_seconds,
                tcp_timeout_seconds,
                use_doh,
                doh_bind_address,
                doh_bind_port,
            },
        )
    }
}

/// The default for the matching environment variable: `::`.
pub open spec fn default_bind_address() -> Seq<u8> {
    seq![58u8, 58u8]
}

/// The default for the matching environment variable: `53`.
pub open spec fn default_bind_port() -> Seq<u8> {
    seq![53u8, 51u8]
}

/// The default for the matching environment variable: `pektin-redis`.
pub open spec fn default_redis_hostname() -> Seq<u8> {
    seq![112u8, 101u8, 107u8, 116u8, 105u8, 110u8, 45u8, 114u8, 101u8, 100u8, 105u8, 115u8]
}

/// The default for the matching environment variable: `6379`.
pub open spec fn default_redis_port() -> Seq<u8> {
    seq![54u8, 51u8, 55u8, 57u8]
}

/// The default for the matching environment variable: `r-pektin-server`.
pub open spec fn default_redis_username() -> Seq<u8> {
    seq![114u8, 45u8, 112u8, 101u8, 107u8, 116u8, 105u8, 110u8, 45u8, 115u8, 101u8, 114u8, 118u8, 101u8, 114u8]
}

/// The default for the matching environment variable: `1`.
pub open spec fn default_redis_retry_seconds() -> Seq<u8> {
    seq![49u8]
}

/// The default for the matching environment variable: `3`.
pub open spec fn default_tcp_timeout_seconds() -> Seq<u8> {
    seq![51u8]
}

/// The default for the matching environment variable: `true`.
pub open spec fn default_use_doh() -> Seq<u8> {
    seq![116u8, 114u8, 117u8, 101u8]
}

/// The default for the matching environment variable: `::`.
pub open spec fn default_doh_bind_address() -> Seq<u8> {
    seq![58u8, 58u8]
}

/// The default for the matching environment variable: `80`.
pub open spec fn default_doh_bind_port() -> Seq<u8> {
    seq![56u8, 48u8]
}

fn default_bind_address_bytes() -> (r: Vec<u8>)
    ensures
        r@ == default_bind_address(),
{
    let mut v: Vec<u8> = Vec::new();
    v.push(58u8);
    v.push(58u8);
    proof {
        assert(v@ =~= default_bind_address());
    }
    v
}

fn default_bind_port_bytes() -> (r: Vec<u8>)
    ensures
        r@ == default_bind_port(),
{
    let mut v: Vec<u8> = Vec::new();
    v.push(53u8);
    v.push(51u8);
    proof {
        assert(v@ =~= default_bind_port());
    }
    v
}

fn default_redis_hostname_bytes() -> (r: Vec<u8>)
    ensures
        r@ == default_redis_hostname(),
{
    let mut v: Vec<u8> = Vec::new();
    v.push(112u8);
    v.push(101u8);
    v.push(107u8);
    v.push(116u8);
    v.push(105u8);
    v.push(110u8);
    v.push(45u8);
    v.push(114u8);
    v.push(101u8);
    v.push(100u8);
    v.push(105u8);
    v.push(115u8);
    proof {
        assert(v@ =~= default_redis_hostname());
    }
    v
}

fn default_redis_port_bytes() -> (r: Vec<u8>)
    ensures
        r@ == default_redis_port(),
{
    let mut v: Vec<u8> = Vec::new();
    v.push(54u8);
    v.push(51u8);
    v.push(55u8);
    v.push(57u8);
    proof {
        assert(v@ =~= default_redis_port());
    }
    v
}

fn default_redis_username_bytes() -> (r: Vec<u8>)
    ensures
        r@ == default_redis_username(),
{
    let mut v: Vec<u8> = Vec::new();
    v.push(114u8);
    v.push(45u8);
    v.push(112u8);
    v.push(101u8);
    v.push(107u8);
    v.push(116u8);
    v.push(105u8);
    v.push(110u8);
    v.push(45u8);
    v.push(115u8);
    v.push(101u8);
    v.push(114u8);
    v.push(118u8);
    v.push(101u8);
    v.push(114u8);
    proof {
        assert(v@ =~= default_redis_username());
    }
    v
}

fn default_redis_retry_seconds_bytes() -> (r: Vec<u8>)
    ensures
        r@ == default_redis_retry_seconds(),
{
    let mut v: Vec<u8> = Vec::new();
    v.push(49u8);
    proof {
        assert(v@ =~= default_redis_retry_seconds());
    }
    v
}

fn default_tcp_timeout_seconds_bytes() -> (r: Vec<u8>)
    ensures
        r@ == default_tcp_timeout_seconds(),
{
    let mut v: Vec<u8> = Vec::new();
    v.push(51u8);
    proof {
        assert(v@ =~= default_tcp_timeout_seconds());
    }
    v
}

fn default_use_doh_bytes() -> (r: Vec<u8>)
    ensures
        r@ == default_use_doh(),
{
    let mut v: Vec<u8> = Vec::new();
    v.push(116u8);
    v.push(114u8);
    v.push(117u8);
    v.push(101u8);
    proof {
        assert(v@ =~= default_use_doh());
    }
    v
}

fn default_doh_bind_address_bytes() -> (r: Vec<u8>)
    ensures
        r@ == default_doh_bind_address(),
{
    let mut v: Vec<u8> = Vec::new();
    v.push(58u8);
    v.push(58u8);
    proof {
        assert(v@ =~= default_doh_bind_address());
    }
    v
}

fn default_doh_bind_port_bytes() -> (r: Vec<u8>)
    ensures
        r@ == default_doh_bind_port(),
{
    let mut v: Vec<u8> = Vec::new();
    v.push(56u8);
    v.push(48u8);
    proof {
        assert(v@ =~= default_doh_bind_port());
    }
    v
}

/// A variable's bytes, or the default where it is unset.
fn env_value(v: Option<Vec<u8>>, d: Vec<u8>) -> (r: Vec<u8>)
    ensures
        r@ == env_or(v, d@),
{
    match v {
        Some(x) => x,
        None => d,
    }
}

} // verus!
