//! The settings the program starts with.

use crate::ids::GuildId;
use crate::playback::opt_text;
use crate::text::{chars_of, decimal, digit};
use vstd::prelude::*;

verus! {

/// The settings of the program.
#[derive(Debug, PartialEq, Eq)]
pub struct Config {
    /// The secret the bot logs in with.
    pub token: String,
    /// The application the commands belong to.
    pub application_id: u64,
    /// The one guild the commands are declared in; everywhere if `None`.
    pub guild_id: Option<GuildId>,
}

/// Why no settings could be made.
#[derive(Clone, Copy, Debug, PartialEq, Eq, Structural)]
pub enum ConfigError {
    /// The settings file could not be loaded.
    EnvFile,
    /// `TOKEN` is not set.
    MissingToken,
    /// `APP_ID` is not set.
    MissingAppId,
    /// `APP_ID` is no number.
    InvalidAppId,
}

/// The value of a decimal digit, if `c` is one.
pub open spec fn digit_value(c: char) -> Option<nat> {
    if c == '0' {
        Some(0)
    } else if c == '1' {
        Some(1)
    } else if c == '2' {
        Some(2)
    } else if c == '3' {
        Some(3)
    } else if c == '4' {
        Some(4)
    } else if c == '5' {
        Some(5)
    } else if c == '6' {
        Some(6)
    } else if c == '7' {
        Some(7)
    } else if c == '8' {
        Some(8)
    } else if c == '9' {
        Some(9)
    } else {
        None
    }
}

/// Whether `s` holds decimal digits only.
pub open spec fn all_digits(s: Seq<char>) -> bool {
    forall|i: int| 0 <= i < s.len() ==> digit_value(#[trigger] s[i]) is Some
}

/// The number that the digits of `s` write in base ten.
pub open spec fn digits_value(s: Seq<char>) -> nat
    decreases s.len(),
{
    if s.len() == 0 {
        0
    } else {
        digits_value(s.drop_last()) * 10 + match digit_value(s.last()) {
            Some(d) => d,
            None => 0,
        }
    }
}

/// The number that `s` writes: an optional plus sign, then at least one
/// decimal digit and nothing else, the whole no larger than 64 bits hold.
pub open spec fn number_of(s: Seq<char>) -> Option<u64> {
    if s.len() > 0 && s[0] == '+' {
        unsigned_number_of(s.drop_first())
    } else {
        unsigned_number_of(s)
    }
}

/// The number that `digits` writes: at least one decimal digit and nothing
/// else, the whole no larger than 64 bits hold.
pub open spec fn unsigned_number_of(digits: Seq<char>) -> Option<u64> {
    if digits.len() > 0 && all_digits(digits) && digits_value(digits) <= u64::MAX {
        Some(digits_value(digits) as u64)
    } else {
        None
    }
}

fn digit_of(c: char) -> (r: Option<u64>)
    ensures
        match r {
            Some(d) => digit_value(c) == Some(d as nat) && d <= 9,
            None => digit_value(c) is None,
        },
{
    if c == '0' {
        Some(0)
    } else if c == '1' {
        Some(1)
    } else if c == '2' {
        Some(2)
    } else if c == '3' {
        Some(3)
    } else if c == '4' {
        Some(4)
    } else if c == '5' {
        Some(5)
    } else if c == '6' {
        Some(6)
    } else if c == '7' {
        Some(7)
    } else if c == '8' {
        Some(8)
    } else if c == '9' {
        Some(9)
    } else {
        None
    }
}

proof fn lemma_digits_grow(s: Seq<char>, k: int)
    requires
        0 <= k <= s.len(),
    ensures
        digits_value(s.take(k)) <= digits_value(s),
    decreases s.len() - k,
{
    if k == s.len() {
        assert(s.take(k) == s);
    } else {
        lemma_digits_grow(s.drop_last(), k);
        assert(s.drop_last().take(k) == s.take(k));
    }
}

/// What is written in base ten reads back as the number that was written.
pub proof fn lemma_number_round_trip(n: u64)
    ensures
        number_of(decimal(n as nat)) == Some(n),
{
    lemma_decimal_digits(n as nat);
    assert(digit_value(decimal(n as nat)[0]) is Some);
}

proof fn lemma_decimal_digits(n: nat)
    ensures
        decimal(n).len() > 0,
        all_digits(decimal(n)),
        digits_value(decimal(n)) == n,
    decreases n,
{
    if n < 10 {
        let s = seq![digit(n)];
        assert(s.drop_last() =~= Seq::<char>::empty());
        assert(digits_value(s.drop_last()) == 0);
        assert(s.last() == digit(n));
    } else {
        lemma_decimal_digits(n / 10);
        let head = decimal(n / 10);
        let s = head.push(digit(n % 10));
        assert(s.drop_last() =~= head);
        assert(s.last() == digit(n % 10));
        assert forall|i: int| 0 <= i < s.len() implies digit_value(#[trigger] s[i]) is Some by {
            if i < head.len() {
                assert(s[i] == head[i]);
            }
        }
    }
}

/// Reads `s` as a number: see [`number_of`].
pub fn parse_number(s: &str) -> (r: Option<u64>)
    ensures
        r == number_of(s@),
{
    let chars = chars_of(s);
    let start: usize = if chars.len() > 0 && chars[0] == '+' {
        1
    } else {
        0
    };
    let ghost digits = s@.skip(start as int);
    proof {
        if start == 1 {
            assert(digits == s@.drop_first());
        } else {
            assert(digits == s@);
        }
    }
    if chars.len() == start {
        return None;
    }
    let mut value: u64 = 0;
    let mut i: usize = start;
    proof {
        assert(digits.take(0) =~= Seq::<char>::empty());
    }
    while i < chars.len()
        invariant
            start <= i <= chars.len(),
            start < chars.len(),
            chars@ == s@,
            digits == s@.skip(start as int),
            number_of(s@) == unsigned_number_of(digits),
            all_digits(digits.take(i - start)),
            value == digits_value(digits.take(i - start)),
        decreases chars.len() - i,
    {
        let ghost before = digits.take(i - start);
        let ghost now = digits.take(i - start + 1);
        proof {
            assert(now.drop_last() == before);
            assert(now.last() == chars@[i as int]);
            assert(digits[i - start] == chars@[i as int]);
        }
        let d = match digit_of(chars[i]) {
            Some(d) => d,
            None => {
                assert(!all_digits(digits));
                return None;
            },
        };
        proof {
            assert forall|k: int| 0 <= k < now.len() implies digit_value(#[trigger] now[k])
                is Some by {
                if k < now.len() - 1 {
                    assert(now[k] == before[k]);
                }
            }
            lemma_digits_grow(digits, i - start + 1);
        }
        value = match value.checked_mul(10) {
            Some(v) => match v.checked_add(d) {
                Some(w) => w,
                None => {
                    return None;
                },
            },
            None => {
                return None;
            },
        };
        i = i + 1;
    }
    proof {
        assert(digits.take(i - start) == digits);
    }
    Some(value)
}

/// The guild to declare the commands in: the number in `guild_id`, if it is
/// set and is a number.
pub open spec fn guild_of(guild_id: Option<Seq<char>>) -> Option<GuildId> {
    match guild_id {
        Some(text) => match number_of(text) {
            Some(g) => Some(GuildId(g)),
            None => None,
        },
        None => None,
    }
}

/// Reads the settings from the values of `TOKEN`, `APP_ID` and `GUILD_ID`,
/// each `None` where it is not set, once the settings file has or has not
/// been loaded. A guild that is not set, or is no number, means that the
/// commands are declared everywhere.
pub fn read_config(
    env_file_loaded: bool,
    token: Option<String>,
    app_id: Option<String>,
    guild_id: Option<String>,
) -> (r: Result<Config, ConfigError>)
    ensures
        match r {
            Ok(config) => {
                &&& env_file_loaded
                &&& token is Some
                &&& config.token == token->0
                &&& app_id is Some
                &&& number_of(app_id->0@) == Some(config.application_id)
                &&& config.guild_id == guild_of(opt_text(guild_id))
            },
            Err(e) => e == if !env_file_loaded {
                ConfigError::EnvFile
            } else if token is None {
                ConfigError::MissingToken
            } else if app_id is None {
                ConfigError::MissingAppId
            } else {
                ConfigError::InvalidAppId
            } && (!env_file_loaded || token is None || app_id is None || number_of(app_id->0@)
                is None),
        },
{
    if !env_file_loaded {
        return Err(ConfigError::EnvFile);
    }
    let token = match token {
        Some(t) => t,
        None => {
            return Err(ConfigError::MissingToken);
        },
    };
    let application_id = match app_id {
        Some(text) => match parse_number(text.as_str()) {
            Some(n) => n,
            None => {
                return Err(ConfigError::InvalidAppId);
            },
        },
        None => {
            return Err(ConfigError::MissingAppId);
        },
    };
    let guild_id = match guild_id {
        Some(text) => match parse_number(text.as_str()) {
            Some(g) => Some(GuildId(g)),
            None => None,
        },
        None => None,
    };
    Ok(Config { token, application_id, guild_id })
}

} // verus!
