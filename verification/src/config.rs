use vstd::prelude::*;
use vstd::string::StrSliceExecFns;

verus! {

/// The immutable-after-startup context handlers run under. The connection
/// string and the signing secret are required; the rest has defaults. The
/// configured token lifetime is carried but not honored: issuance hard-codes
/// 24 hours.
#[derive(Debug)]
pub struct Config {
    pub host: String,
    pub port: u16,
    pub database_url: String,
    pub jwt_secret: String,
    pub jwt_expires_in: String,
}

/// Why assembling a configuration failed: a required setting was absent.
#[derive(Clone, Copy, Debug, PartialEq, Eq, Structural)]
pub enum ConfigError {
    MissingDatabaseUrl,
    MissingJwtSecret,
}

/// The numeric value of a run of decimal digits.
pub open spec fn spec_digits_val(s: Seq<char>) -> int
    decreases s.len(),
{
    if s.len() == 0 {
        0
    } else {
        spec_digits_val(s.drop_last()) * 10 + (s.last() as int - 48)
    }
}

pub open spec fn all_digits(s: Seq<char>) -> bool {
    forall|i: int| 0 <= i < s.len() ==> 48 <= #[trigger] s[i] as int <= 57
}

/// What parsing a port number means: an optional leading plus sign, then at
/// least one digit, with a value that fits in sixteen bits.
pub open spec fn spec_parse_u16(s: Seq<char>) -> Option<u16> {
    let digits = if s.len() >= 1 && s[0] == '+' {
        s.skip(1)
    } else {
        s
    };
    if digits.len() >= 1 && all_digits(digits) && spec_digits_val(digits) <= 65535 {
        Some(spec_digits_val(digits) as u16)
    } else {
        None
    }
}

/// Parses a decimal port number; anything malformed or out of range reads
/// as no port at all.
pub fn parse_u16(s: &String) -> (r: Option<u16>)
    ensures
        r == spec_parse_u16(s@),
{
    let len = s.as_str().unicode_len();
    let mut i: usize = 0;
    if len >= 1 && s.as_str().get_char(0) == '+' {
        i = 1;
    }
    let start = i;
    let ghost digits = if start == 1 {
        s@.skip(1)
    } else {
        s@
    };
    if i >= len {
        return None;
    }
    let mut val: u32 = 0;
    let mut over = false;
    while i < len
        invariant
            start <= i <= len,
            len == s@.len(),
            start == 0 || start == 1,
            (start == 1) <==> (s@.len() >= 1 && s@[0] == '+'),
            digits == (if start == 1 {
                s@.skip(1)
            } else {
                s@
            }),
            digits.len() == len - start,
            all_digits(digits.subrange(0, i - start)),
            !over ==> val == spec_digits_val(digits.subrange(0, i - start)) && val <= 65535,
            over ==> spec_digits_val(digits.subrange(0, i - start)) > 65535,
        decreases len - i,
    {
        let c = s.as_str().get_char(i);
        let code = c as u32;
        let ghost prefix = digits.subrange(0, i - start);
        proof {
            assert(digits[i - start] == s@[i as int]);
            assert(digits.subrange(0, i + 1 - start).drop_last() =~= prefix);
        }
        if code < 48 || code > 57 {
            proof {
                assert(digits[i - start] as int == code as int);
                assert(!all_digits(digits));
            }
            return None;
        }
        let d = code - 48;
        if over {
        } else if val * 10 + d > 65535 {
            over = true;
        } else {
            val = val * 10 + d;
        }
        i += 1;
    }
    proof {
        assert(digits.subrange(0, len - start) =~= digits);
    }
    if over {
        None
    } else {
        Some(val as u16)
    }
}

impl Config {
    /// Assembles the configuration from the optional raw settings, applying
    /// the defaults: any host, a parsed port falling back to 8000, and a
    /// 24-hour default token lifetime string. The connection string and the
    /// signing secret have no default; a missing one is the startup error.
    pub fn build(
        host: Option<String>,
        port: Option<String>,
        database_url: Option<String>,
        jwt_secret: Option<String>,
        jwt_expires_in: Option<String>,
    ) -> (r: Result<Config, ConfigError>)
        ensures
            r == Err::<Config, ConfigError>(ConfigError::MissingDatabaseUrl) <==> database_url
                is None,
            r == Err::<Config, ConfigError>(ConfigError::MissingJwtSecret) <==> (database_url
                is Some && jwt_secret is None),
            r matches Ok(c) ==> {
                &&& c.host@ == (match host {
                    Some(h) => h@,
                    None => "127.0.0.1"@,
                })
                &&& c.port == (match port {
                    Some(p) => match spec_parse_u16(p@) {
                        Some(v) => v,
                        None => 8000u16,
                    },
                    None => 8000u16,
                })
                &&& database_url matches Some(u) && c.database_url@ == u@
                &&& jwt_secret matches Some(sec) && c.jwt_secret@ == sec@
                &&& c.jwt_expires_in@ == (match jwt_expires_in {
                    Some(e) => e@,
                    None => "24h"@,
                })
            },
    {
        let database_url = match database_url {
            Some(u) => u,
            None => {
                return Err(ConfigError::MissingDatabaseUrl);
            },
        };
        let jwt_secret = match jwt_secret {
            Some(sec) => sec,
            None => {
                return Err(ConfigError::MissingJwtSecret);
            },
        };
        let host = match host {
            Some(h) => h,
            None => "127.0.0.1".to_owned(),
        };
        let port = match port {
            Some(p) => match parse_u16(&p) {
                Some(v) => v,
                None => 8000,
            },
            None => 8000,
        };
        let jwt_expires_in = match jwt_expires_in {
            Some(e) => e,
            None => "24h".to_owned(),
        };
        Ok(Config { host, port, database_url, jwt_secret, jwt_expires_in })
    }
}

} // verus!
