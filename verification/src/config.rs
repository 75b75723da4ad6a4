//! Process configuration.
//!
//! The configuration is an explicit value built once at startup from
//! environment-supplied strings. Reading the environment is I/O and
//! stays outside the library; the caller hands the raw values in and
//! fails fast when `load` reports one missing or malformed.

use vstd::prelude::*;

verus! {

/// Process configuration, built once at startup.
pub struct Config {
    pub api_key: String,

    pub sentry_sdn: String,

    pub postgres_db_name: String,
    pub postgres_host: String,
    pub postgres_port: u16,
    pub postgres_user: String,
    pub postgres_password: String,

    pub meili_host: String,
    pub meili_master_key: String,
}

/// The raw environment values the configuration is built from; `None`
/// stands for an absent variable.
pub struct EnvValues {
    pub api_key: Option<String>,
    pub sentry_sdn: Option<String>,
    pub postgres_db_name: Option<String>,
    pub postgres_host: Option<String>,
    pub postgres_port: Option<String>,
    pub postgres_user: Option<String>,
    pub postgres_password: Option<String>,
    pub meili_host: Option<String>,
    pub meili_master_key: Option<String>,
}

pub open spec fn is_ascii_digit(c: char) -> bool {
    '0' <= c && c <= '9'
}

pub open spec fn digit_value(c: char) -> int {
    c as int - '0' as int
}

pub open spec fn all_ascii_digits(s: Seq<char>) -> bool {
    forall|i: int| 0 <= i < s.len() ==> is_ascii_digit(s[i])
}

/// The value of a sequence of decimal digits, most significant first.
pub open spec fn decimal_value(s: Seq<char>) -> int
    decreases s.len(),
{
    if s.len() == 0 {
        0
    } else {
        decimal_value(s.drop_last()) * 10 + digit_value(s.last())
    }
}

proof fn lemma_decimal_value_nonneg(s: Seq<char>)
    requires
        all_ascii_digits(s),
    ensures
        decimal_value(s) >= 0,
    decreases s.len(),
{
    if s.len() > 0 {
        assert(all_ascii_digits(s.drop_last()));
        lemma_decimal_value_nonneg(s.drop_last());
    }
}

/// A digit string's value only grows as more digits are appended.
proof fn lemma_decimal_value_prefix(s: Seq<char>, i: int)
    requires
        all_ascii_digits(s),
        0 <= i <= s.len(),
    ensures
        decimal_value(s.subrange(0, i)) <= decimal_value(s),
    decreases s.len() - i,
{
    if i == s.len() {
        assert(s.subrange(0, i) =~= s);
    } else {
        let shorter = s.subrange(0, i);
        let longer = s.subrange(0, i + 1);
        assert(longer.drop_last() =~= shorter);
        assert(all_ascii_digits(shorter));
        lemma_decimal_value_nonneg(shorter);
        lemma_decimal_value_prefix(s, i + 1);
    }
}

/// Parses a decimal port number. Returns `Some` exactly when the whole
/// string is one or more ASCII digits whose value fits in a `u16`.
pub fn parse_port(s: &str) -> (r: Option<u16>)
    ensures
        r is Some <==> (s@.len() > 0 && all_ascii_digits(s@) && decimal_value(s@) <= u16::MAX),
        r matches Some(v) ==> v == decimal_value(s@),
{
    let n: usize = s.unicode_len();
    if n == 0 {
        return None;
    }
    let mut acc: u32 = 0;
    let mut i: usize = 0;
    while i < n
        invariant
            0 <= i <= n,
            n == s@.len(),
            all_ascii_digits(s@.subrange(0, i as int)),
            acc == decimal_value(s@.subrange(0, i as int)),
            acc <= u16::MAX,
        decreases n - i,
    {
        let c = s.get_char(i);
        if c < '0' || c > '9' {
            return None;
        }
        let d: u32 = (c as u32) - ('0' as u32);
        acc = acc * 10 + d;
        proof {
            assert(s@.subrange(0, i + 1 as int).drop_last() =~= s@.subrange(0, i as int));
        }
        i = i + 1;
        if acc > u16::MAX as u32 {
            proof {
                if all_ascii_digits(s@) {
                    lemma_decimal_value_prefix(s@, i as int);
                }
            }
            return None;
        }
    }
    proof {
        assert(s@.subrange(0, n as int) =~= s@);
    }
    Some(acc as u16)
}

impl Config {
    /// Builds the configuration from the raw environment values.
    /// Succeeds exactly when every variable is present and the port is
    /// a valid decimal `u16`; each field then carries the supplied
    /// value unchanged.
    pub fn load(env: EnvValues) -> (r: Option<Config>)
        ensures
            r is Some <==> (env.api_key is Some && env.sentry_sdn is Some
                && env.postgres_db_name is Some && env.postgres_host is Some
                && env.postgres_user is Some && env.postgres_password is Some
                && env.meili_host is Some && env.meili_master_key is Some
                && (env.postgres_port matches Some(p) && p@.len() > 0
                    && all_ascii_digits(p@) && decimal_value(p@) <= u16::MAX)),
            r matches Some(c) ==> {
                &&& c.api_key == env.api_key->0
                &&& c.sentry_sdn == env.sentry_sdn->0
                &&& c.postgres_db_name == env.postgres_db_name->0
                &&& c.postgres_host == env.postgres_host->0
                &&& c.postgres_port == decimal_value(env.postgres_port->0@)
                &&& c.postgres_user == env.postgres_user->0
                &&& c.postgres_password == env.postgres_password->0
                &&& c.meili_host == env.meili_host->0
                &&& c.meili_master_key == env.meili_master_key->0
            },
    {
        let api_key = match env.api_key {
            Some(v) => v,
            None => return None,
        };
        let sentry_sdn = match env.sentry_sdn {
            Some(v) => v,
            None => return None,
        };
        let postgres_db_name = match env.postgres_db_name {
            Some(v) => v,
            None => return None,
        };
        let postgres_host = match env.postgres_host {
            Some(v) => v,
            None => return None,
        };
        let port_text = match env.postgres_port {
            Some(v) => v,
            None => return None,
        };
        let postgres_user = match env.postgres_user {
            Some(v) => v,
            None => return None,
        };
        let postgres_password = match env.postgres_password {
            Some(v) => v,
            None => return None,
        };
        let meili_host = match env.meili_host {
            Some(v) => v,
            None => return None,
        };
        let meili_master_key = match env.meili_master_key {
            Some(v) => v,
            None => return None,
        };
        let postgres_port = match parse_port(port_text.as_str()) {
            Some(v) => v,
            None => return None,
        };
        Some(Config {
            api_key,
            sentry_sdn,
            postgres_db_name,
            postgres_host,
            postgres_port,
            postgres_user,
            postgres_password,
            meili_host,
            meili_master_key,
        })
    }
}

} // verus!
