use vstd::prelude::*;
use vstd::string::*;

verus! {

/// The value of a decimal digit, or nothing for any other character.
pub open spec fn digit_of(c: char) -> Option<nat> {
    if '0' <= c <= '9' {
        Some((c as u32 - '0' as u32) as nat)
    } else {
        None
    }
}

/// Every character of the text is a decimal digit.
pub open spec fn all_digits(text: Seq<char>) -> bool {
    forall|i: int| 0 <= i < text.len() ==> digit_of(#[trigger] text[i]) is Some
}

/// The number that a run of decimal digits writes.
pub open spec fn decimal_value(digits: Seq<char>) -> nat
    decreases digits.len(),
{
    if digits.len() == 0 {
        0
    } else {
        match digit_of(digits.last()) {
            Some(digit) => decimal_value(digits.drop_last()) * 10 + digit,
            None => decimal_value(digits.drop_last()) * 10,
        }
    }
}

/// The text without a leading plus sign.
pub open spec fn unsigned_part(text: Seq<char>) -> Seq<char> {
    if text.len() > 0 && text[0] == '+' {
        text.drop_first()
    } else {
        text
    }
}

/// The number a setting writes: an optional plus sign and then at least
/// one decimal digit and nothing else, if the number is at most `limit`.
pub open spec fn number_of(text: Seq<char>, limit: u64) -> Option<u64> {
    let digits = unsigned_part(text);
    if digits.len() > 0 && all_digits(digits) && decimal_value(digits) <= limit {
        Some(decimal_value(digits) as u64)
    } else {
        None
    }
}

/// What a setting stands for: the default if it is not given, its number
/// if it writes one, and zero if it is given but writes none.
pub open spec fn setting_of(text: Option<Seq<char>>, default: u64, limit: u64) -> u64 {
    match text {
        None => default,
        Some(text) => match number_of(text, limit) {
            Some(number) => number,
            None => 0,
        },
    }
}

/// More digits never write a smaller number.
pub proof fn lemma_decimal_value_grows(digits: Seq<char>, shorter: int)
    requires
        0 <= shorter <= digits.len(),
    ensures
        decimal_value(digits.take(shorter)) <= decimal_value(digits),
    decreases digits.len() - shorter,
{
    if shorter < digits.len() {
        let longer = digits.take(shorter + 1);
        assert(longer.drop_last() =~= digits.take(shorter));
        lemma_decimal_value_grows(digits, shorter + 1);
    } else {
        assert(digits.take(shorter) =~= digits);
    }
}

/// Reads the number a setting writes.
pub fn parse_number(text: &str, limit: u64) -> (number: Option<u64>)
    ensures
        number == number_of(text@, limit),
{
    let length = text.unicode_len();
    let start: usize = if length > 0 && text.get_char(0) == '+' {
        1
    } else {
        0
    };
    if start == length {
        return None;
    }
    let ghost digits = unsigned_part(text@);
    let mut value: u64 = 0;
    let mut position: usize = start;
    proof {
        assert(digits.take(0) =~= Seq::<char>::empty());
    }
    while position < length
        invariant
            start <= position <= length,
            length == text@.len(),
            start <= 1,
            digits == unsigned_part(text@),
            digits.len() == length - start,
            forall|i: int| 0 <= i < digits.len() ==> digits[i] == text@[i + start],
            all_digits(digits.take(position - start)),
            value == decimal_value(digits.take(position - start)),
            value <= limit,
        decreases length - position,
    {
        let c = text.get_char(position);
        let ghost seen = digits.take(position - start);
        let ghost longer = digits.take(position - start + 1);
        proof {
            assert(longer.drop_last() =~= seen);
            assert(longer.last() == c);
        }
        if !('0' <= c && c <= '9') {
            proof {
                assert(digit_of(digits[position - start]) is None);
            }
            return None;
        }
        let digit: u64 = (c as u32 - '0' as u32) as u64;
        if digit > limit || value > (limit - digit) / 10 {
            proof {
                assert(decimal_value(longer) > limit) by (nonlinear_arith)
                    requires
                        decimal_value(longer) == value * 10 + digit,
                        digit > limit || value > (limit - digit) / 10,
                        digit <= 9,
                ;
                lemma_decimal_value_grows(digits, position - start + 1);
            }
            return None;
        }
        proof {
            assert(value * 10 + digit <= limit) by (nonlinear_arith)
                requires
                    value <= (limit - digit) / 10,
                    digit <= limit,
            ;
            assert forall|i: int| 0 <= i < longer.len() implies digit_of(#[trigger] longer[i])
                is Some by {
                if i < seen.len() {
                    assert(longer[i] == seen[i]);
                }
            }
        }
        value = value * 10 + digit;
        position = position + 1;
    }
    proof {
        assert(digits.take(length - start) =~= digits);
    }
    Some(value)
}

/// Reads one setting: the default if it is not given, zero if it is given
/// but writes no number within the limit.
pub fn read_setting(text: &Option<String>, default: u64, limit: u64) -> (value: u64)
    ensures
        value == setting_of(
            match text {
                Some(text) => Some(text@),
                None => None,
            },
            default,
            limit,
        ),
{
    match text {
        None => default,
        Some(text) => match parse_number(text.as_str(), limit) {
            Some(number) => number,
            None => 0,
        },
    }
}

/// The settings of a connection pool as they were read, each still as
/// text, and absent where nothing was given.
#[derive(Debug)]
pub struct PoolSettings {
    pub url: Option<String>,
    pub max_lifetime: Option<String>,
    pub pool_max: Option<String>,
    pub pool_min: Option<String>,
    pub idle_timeout: Option<String>,
    pub conn_timeout: Option<String>,
}

/// How the pool of storage connections is to be set up. Times are in
/// milliseconds.
#[derive(Debug)]
pub struct PoolConfig {
    url: String,
    max_lifetime: u64,
    idle_timeout: u64,
    conn_timeout: u64,
    pool_size: (u32, u32),
}

/// A pool configuration as plain values.
pub struct PoolConfigView {
    pub url: Seq<char>,
    pub max_lifetime: u64,
    pub idle_timeout: u64,
    pub conn_timeout: u64,
    pub pool_max: u32,
    pub pool_min: u32,
}

/// The text of an optional setting.
pub open spec fn text_of(setting: Option<String>) -> Option<Seq<char>> {
    match setting {
        Some(text) => Some(text@),
        None => None,
    }
}

/// The configuration that the settings describe, if they name a store:
/// a lifetime of 5000, an idle timeout of 10000 and a connect timeout of
/// 1000 milliseconds, and a pool of 8 to 16 connections, unless a setting
/// says otherwise.
pub open spec fn configured(settings: PoolSettings) -> Option<PoolConfigView> {
    match settings.url {
        None => None,
        Some(url) => Some(
            PoolConfigView {
                url: url@,
                max_lifetime: setting_of(text_of(settings.max_lifetime), 5000, u64::MAX),
                idle_timeout: setting_of(text_of(settings.idle_timeout), 10000, u64::MAX),
                conn_timeout: setting_of(text_of(settings.conn_timeout), 1000, u64::MAX),
                pool_max: setting_of(text_of(settings.pool_max), 16, 0xffff_ffff) as u32,
                pool_min: setting_of(text_of(settings.pool_min), 8, 0xffff_ffff) as u32,
            },
        ),
    }
}

impl View for PoolConfig {
    type V = PoolConfigView;

    closed spec fn view(&self) -> PoolConfigView {
        PoolConfigView {
            url: self.url@,
            max_lifetime: self.max_lifetime,
            idle_timeout: self.idle_timeout,
            conn_timeout: self.conn_timeout,
            pool_max: self.pool_size.0,
            pool_min: self.pool_size.1,
        }
    }
}

impl PoolConfig {
    /// Works the configuration out from the settings as they were read.
    /// Without the address of the store there is none.
    pub fn from_settings(settings: PoolSettings) -> (config: Option<PoolConfig>)
        ensures
            match config {
                Some(config) => configured(settings) == Some(config@),
                None => configured(settings) is None,
            },
    {
        let max_lifetime = read_setting(&settings.max_lifetime, 5000, u64::MAX);
        let pool_max = read_setting(&settings.pool_max, 16, 0xffff_ffff);
        let pool_min = read_setting(&settings.pool_min, 8, 0xffff_ffff);
        let idle_timeout = read_setting(&settings.idle_timeout, 10000, u64::MAX);
        let conn_timeout = read_setting(&settings.conn_timeout, 1000, u64::MAX);
        match settings.url {
            None => None,
            Some(url) => Some(
                PoolConfig {
                    url,
                    max_lifetime,
                    idle_timeout,
                    conn_timeout,
                    pool_size: (pool_max as u32, pool_min as u32),
                },
            ),
        }
    }

    pub fn url(&self) -> (url: &String)
        ensures
            url@ == self@.url,
    {
        &self.url
    }

    pub fn max_lifetime(&self) -> (millis: u64)
        ensures
            millis == self@.max_lifetime,
    {
        self.max_lifetime
    }

    pub fn idle_timeout(&self) -> (millis: u64)
        ensures
            millis == self@.idle_timeout,
    {
        self.idle_timeout
    }

    pub fn conn_timeout(&self) -> (millis: u64)
        ensures
            millis == self@.conn_timeout,
    {
        self.conn_timeout
    }

    /// The greatest and the least number of connections, in this order.
    pub fn pool_size(&self) -> (size: (u32, u32))
        ensures
            size == (self@.pool_max, self@.pool_min),
    {
        self.pool_size
    }
}

} // verus!
