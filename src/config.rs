use vstd::prelude::*;

verus! {

/// The secret used when none is configured. Anyone who knows it can forge
/// tokens: deployments must configure their own.
pub const DEFAULT_SECRET: &'static str = "secret";

/// The validity window of a token, in minutes, when none is configured.
pub const DEFAULT_VALIDITY_MINUTES: u64 = 20;

/// Whether every character of `s` is an ASCII decimal digit.
pub open spec fn all_digits(s: Seq<char>) -> bool {
    forall|i: int| 0 <= i < s.len() ==> '0' <= #[trigger] s[i] <= '9'
}

/// The number that the decimal digits `s` denote.
pub open spec fn digits_value(s: Seq<char>) -> int
    decreases s.len(),
{
    if s.len() == 0 {
        0
    } else {
        digits_value(s.drop_last()) * 10 + (s.last() as int - '0' as int)
    }
}

/// A configured number of minutes: a non-empty run of decimal digits whose
/// value is positive and fits in 64 bits. Anything else is not a setting.
pub open spec fn minutes_setting(s: Seq<char>) -> Option<u64> {
    if s.len() > 0 && all_digits(s) && 0 < digits_value(s) <= u64::MAX {
        Some(digits_value(s) as u64)
    } else {
        None
    }
}

/// The validity window that a configuration value gives: the value when it is
/// a valid setting, the default when it is absent or unusable.
pub open spec fn validity_window_of(setting: Option<Seq<char>>) -> u64 {
    match setting {
        Some(s) => match minutes_setting(s) {
            Some(n) => n,
            None => DEFAULT_VALIDITY_MINUTES,
        },
        None => DEFAULT_VALIDITY_MINUTES,
    }
}

/// The signing secret that a configuration value gives.
pub open spec fn secret_of(setting: Option<Seq<char>>) -> Seq<char> {
    match setting {
        Some(s) => s,
        None => DEFAULT_SECRET@,
    }
}

proof fn lemma_digits_value_nonneg(s: Seq<char>)
    requires
        all_digits(s),
    ensures
        digits_value(s) >= 0,
    decreases s.len(),
{
    if s.len() > 0 {
        lemma_digits_value_nonneg(s.drop_last());
    }
}

proof fn lemma_digits_value_monotone(s: Seq<char>, t: Seq<char>)
    requires
        all_digits(t),
        s.len() <= t.len(),
        s == t.subrange(0, s.len() as int),
    ensures
        digits_value(s) <= digits_value(t),
    decreases t.len() - s.len(),
{
    if s.len() < t.len() {
        let u = t.drop_last();
        assert(s == u.subrange(0, s.len() as int));
        assert(all_digits(u));
        lemma_digits_value_monotone(s, u);
        lemma_digits_value_nonneg(u);
        assert('0' <= t[t.len() - 1]);
        assert(digits_value(u) <= digits_value(u) * 10) by (nonlinear_arith)
            requires
                digits_value(u) >= 0,
        ;
    } else {
        assert(s =~= t);
    }
}

/// Reads a number of minutes from its configured text.
pub fn parse_minutes(s: &str) -> (r: Option<u64>)
    ensures
        r == minutes_setting(s@),
{
    let n = s.unicode_len();
    if n == 0 {
        return None;
    }
    let mut value: u64 = 0;
    let mut i: usize = 0;
    while i < n
        invariant
            n == s@.len(),
            i <= n,
            all_digits(s@.subrange(0, i as int)),
            value == digits_value(s@.subrange(0, i as int)),
        decreases n - i,
    {
        let c = s.get_char(i);
        assert(s@.subrange(0, i as int + 1).drop_last() == s@.subrange(0, i as int));
        if c < '0' || c > '9' {
            assert(!all_digits(s@));
            return None;
        }
        let d = (c as u32 - '0' as u32) as u64;
        if value > (u64::MAX - d) / 10 {
            proof {
                assert(value * 10 + d > u64::MAX) by (nonlinear_arith)
                    requires
                        value > (u64::MAX - d) / 10,
                        d <= 9,
                ;
                if all_digits(s@) {
                    lemma_digits_value_monotone(s@.subrange(0, i as int + 1), s@);
                }
                assert(s@.subrange(0, n as int) == s@);
            }
            return None;
        }
        proof {
            assert(value * 10 + d <= u64::MAX) by (nonlinear_arith)
                requires
                    value <= (u64::MAX - d) / 10,
                    d <= 9,
            ;
        }
        value = value * 10 + d;
        i = i + 1;
    }
    assert(s@.subrange(0, n as int) == s@);
    if value == 0 {
        None
    } else {
        Some(value)
    }
}

/// The immutable settings shared by issuance and verification, built once when
/// the process starts.
#[derive(Clone, Debug)]
pub struct AuthConfig {
    /// The symmetric secret of the signature.
    pub secret: String,
    /// How long an issued token stays valid, in minutes.
    pub validity_minutes: u64,
}

impl AuthConfig {
    /// Whether the settings are usable: a window of at least one minute.
    pub open spec fn wf(&self) -> bool {
        self.validity_minutes > 0
    }

    /// Builds the settings from the raw configuration values, each absent when
    /// unset: the secret falls back to `DEFAULT_SECRET`, and the window to
    /// `DEFAULT_VALIDITY_MINUTES` when unset or not a positive number.
    pub fn new(secret: Option<String>, validity_minutes: Option<String>) -> (r: AuthConfig)
        ensures
            r.wf(),
            r.secret@ == secret_of(
                match secret {
                    Some(s) => Some(s@),
                    None => None,
                },
            ),
            r.validity_minutes == validity_window_of(
                match validity_minutes {
                    Some(s) => Some(s@),
                    None => None,
                },
            ),
    {
        let secret = match secret {
            Some(s) => s,
            None => DEFAULT_SECRET.to_owned(),
        };
        let minutes = match validity_minutes {
            Some(s) => match parse_minutes(s.as_str()) {
                Some(n) => n,
                None => DEFAULT_VALIDITY_MINUTES,
            },
            None => DEFAULT_VALIDITY_MINUTES,
        };
        AuthConfig { secret, validity_minutes: minutes }
    }
}

} // verus!
