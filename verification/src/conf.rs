//! The settings of the service and how their values are read from the
//! variables of the environment, which the caller hands over as pairs of
//! name and value.

use crate::time::{Lifetime, MAX_LIFETIME_SECS, SECS_PER_DAY};
use vstd::prelude::*;
use vstd::string::{StrSliceExecFns, StringExecFns};

verus! {

/// The host to listen on where none is set.
pub const DEFAULT_WEB_HOST: &'static str = "0.0.0.0";

/// The port to listen on where none is set.
pub const DEFAULT_WEB_PORT: &'static str = "8000";

/// The days that a new redirection lives where none are set.
pub const DEFAULT_LINK_LIFETIME: i64 = 90;

/// A setting of the service.
#[derive(Debug, Clone, Copy, PartialEq, Eq, Structural)]
pub enum RusConf {
    /// The address of the cache service.
    RedisUrl,
    /// The address of the durable store.
    DatabaseUrl,
    /// The port to listen on.
    WebPort,
    /// The host to listen on.
    WebHost,
    /// The days that a new redirection lives.
    LinkDaysLifeTime,
}

/// The value of the first variable named `name` among `vars`.
pub open spec fn lookup(vars: Seq<(String, String)>, name: Seq<char>) -> Option<Seq<char>>
    decreases vars.len(),
{
    if vars.len() == 0 {
        None
    } else if vars[0].0@ == name {
        Some(vars[0].1@)
    } else {
        lookup(vars.drop_first(), name)
    }
}

/// Whether `c` is one of the ten digits.
pub open spec fn is_digit(c: char) -> bool {
    '0' <= c && c <= '9'
}

/// The number that the digit `c` stands for.
pub open spec fn digit_value(c: char) -> int {
    c as int - '0' as int
}

/// The number that a sequence of digits writes in base ten.
pub open spec fn digits_value(digits: Seq<char>) -> int
    decreases digits.len(),
{
    if digits.len() == 0 {
        0
    } else {
        digits_value(digits.drop_last()) * 10 + digit_value(digits.last())
    }
}

/// Whether every character is a digit.
pub open spec fn all_digits(digits: Seq<char>) -> bool {
    forall|i: int| 0 <= i < digits.len() ==> is_digit(#[trigger] digits[i])
}

/// Whether the text begins with a sign.
pub open spec fn has_sign(text: Seq<char>) -> bool {
    text.len() > 0 && (text[0] == '-' || text[0] == '+')
}

/// The text after its sign, if it has one.
pub open spec fn unsigned_part(text: Seq<char>) -> Seq<char> {
    if has_sign(text) {
        text.subrange(1, text.len() as int)
    } else {
        text
    }
}

/// The number that the text writes without its sign, with the sign put
/// back: the negative of it after `-`.
pub open spec fn signed_value(text: Seq<char>) -> int {
    if text.len() > 0 && text[0] == '-' {
        -digits_value(unsigned_part(text))
    } else {
        digits_value(unsigned_part(text))
    }
}

/// The 64-bit integer that `text` writes: an optional sign, then one or
/// more digits and nothing else, for a number that 64 bits hold.
pub open spec fn parsed_i64(text: Seq<char>) -> Option<int> {
    if unsigned_part(text).len() > 0 && all_digits(unsigned_part(text)) && i64::MIN
        <= signed_value(text) <= i64::MAX {
        Some(signed_value(text))
    } else {
        None
    }
}

/// A number of one more digit is ten times the number and the digit.
proof fn lemma_digits_push(digits: Seq<char>, c: char)
    ensures
        digits_value(digits.push(c)) == digits_value(digits) * 10 + digit_value(c),
{
    assert(digits.push(c).drop_last() =~= digits);
}

/// Digits never write a negative number.
proof fn lemma_digits_value_bounds(digits: Seq<char>)
    requires
        all_digits(digits),
    ensures
        0 <= digits_value(digits),
    decreases digits.len(),
{
    if digits.len() > 0 {
        assert forall|i: int| 0 <= i < digits.drop_last().len() implies is_digit(
            #[trigger] digits.drop_last()[i],
        ) by {
            assert(digits.drop_last()[i] == digits[i]);
        }
        lemma_digits_value_bounds(digits.drop_last());
        assert(is_digit(digits[digits.len() - 1]));
    }
}

/// Reads a 64-bit integer in base ten: an optional sign, then digits.
pub fn parse_i64(text: &str) -> (r: Option<i64>)
    ensures
        r is Some <==> parsed_i64(text@) is Some,
        r is Some ==> r->0 == parsed_i64(text@)->0,
{
    let len: usize = text.unicode_len();
    if len == 0 {
        return None;
    }
    let first = text.get_char(0);
    let negative: bool = first == '-';
    let start: usize = if first == '-' || first == '+' {
        1
    } else {
        0
    };
    if start == len {
        return None;
    }
    let ghost digits = unsigned_part(text@);
    // One more than the largest magnitude that 64 bits hold with a sign.
    let cap: i128 = 9_223_372_036_854_775_809;
    let mut value: i128 = 0;
    let mut i: usize = start;
    while i < len
        invariant
            start <= i <= len,
            len == text@.len(),
            digits == text@.subrange(start as int, len as int),
            digits == unsigned_part(text@),
            cap == 9_223_372_036_854_775_809,
            all_digits(digits.take(i - start)),
            0 <= value <= cap,
            value < cap ==> value == digits_value(digits.take(i - start)),
            value == cap ==> digits_value(digits.take(i - start)) >= cap,
        decreases len - i,
    {
        let c = text.get_char(i);
        if !('0' <= c && c <= '9') {
            assert(digits[i - start] == c);
            assert(!is_digit(digits[i - start]));
            return None;
        }
        let digit: i128 = (c as u32 - '0' as u32) as i128;
        proof {
            let before = digits.take(i - start);
            assert(digits.take(i - start + 1) =~= before.push(c));
            lemma_digits_push(before, c);
            lemma_digits_value_bounds(before);
            assert forall|j: int| 0 <= j < i - start + 1 implies is_digit(
                #[trigger] digits.take(i - start + 1)[j],
            ) by {
                if j < i - start {
                    assert(before[j] == digits.take(i - start + 1)[j]);
                }
            }
        }
        if value >= cap || value * 10 + digit >= cap {
            value = cap;
        } else {
            value = value * 10 + digit;
        }
        i += 1;
    }
    assert(digits.take(len - start) =~= digits);
    if negative {
        if value <= 9_223_372_036_854_775_808 {
            Some((-value) as i64)
        } else {
            None
        }
    } else {
        if value <= 9_223_372_036_854_775_807 {
            Some(value as i64)
        } else {
            None
        }
    }
}

impl RusConf {
    /// The name of the variable that holds the setting.
    pub open spec fn spec_name(self) -> Seq<char> {
        match self {
            RusConf::RedisUrl => "RUS_REDIS_URL"@,
            RusConf::DatabaseUrl => "RUS_DATABASE_URL"@,
            RusConf::WebPort => "RUS_PORT"@,
            RusConf::WebHost => "RUS_HOST"@,
            RusConf::LinkDaysLifeTime => "RUS_LINKS_LIFETIME"@,
        }
    }

    /// The name of the variable that holds the setting.
    pub fn name(&self) -> (r: &'static str)
        ensures
            r@ == self.spec_name(),
    {
        match *self {
            RusConf::RedisUrl => "RUS_REDIS_URL",
            RusConf::DatabaseUrl => "RUS_DATABASE_URL",
            RusConf::WebPort => "RUS_PORT",
            RusConf::WebHost => "RUS_HOST",
            RusConf::LinkDaysLifeTime => "RUS_LINKS_LIFETIME",
        }
    }

    /// The value of the setting among the variables `vars`, if it is set.
    pub fn get(&self, vars: &Vec<(String, String)>) -> (r: Option<String>)
        ensures
            r is Some <==> lookup(vars@, self.spec_name()) is Some,
            r is Some ==> r->0@ == lookup(vars@, self.spec_name())->0,
    {
        let name: String = self.name().to_owned();
        let mut i: usize = 0;
        assert(vars@.subrange(0, vars@.len() as int) =~= vars@);
        while i < vars.len()
            invariant
                i <= vars@.len(),
                name@ == self.spec_name(),
                lookup(vars@, self.spec_name()) == lookup(
                    vars@.subrange(i as int, vars@.len() as int),
                    self.spec_name(),
                ),
            decreases vars@.len() - i,
        {
            let ghost rest = vars@.subrange(i as int, vars@.len() as int);
            assert(rest[0] == vars@[i as int]);
            assert(rest.drop_first() =~= vars@.subrange(i + 1, vars@.len() as int));
            if vars[i].0 == name {
                return Some(vars[i].1.clone());
            }
            i += 1;
        }
        None
    }

    /// The value of the setting as a 64-bit integer, or `default` where
    /// it is not set or does not write one.
    pub fn get_i64_or(&self, vars: &Vec<(String, String)>, default: i64) -> (r: i64)
        ensures
            r == match lookup(vars@, self.spec_name()) {
                Some(text) => match parsed_i64(text) {
                    Some(number) => number,
                    None => default as int,
                },
                None => default as int,
            },
    {
        match self.get(vars) {
            Some(text) => match parse_i64(text.as_str()) {
                Some(number) => number,
                None => default,
            },
            None => default,
        }
    }

    /// The value of the setting, or `default` where it is not set.
    pub fn get_or(&self, vars: &Vec<(String, String)>, default: String) -> (r: String)
        ensures
            r@ == match lookup(vars@, self.spec_name()) {
                Some(text) => text,
                None => default@,
            },
    {
        match self.get(vars) {
            Some(text) => text,
            None => default,
        }
    }
}

/// The text of a setting among `vars`, or `default` where it is not set.
pub open spec fn setting_or(vars: Seq<(String, String)>, setting: RusConf, default: Seq<char>) -> Seq<
    char,
> {
    match lookup(vars, setting.spec_name()) {
        Some(text) => text,
        None => default,
    }
}

/// The days that a new redirection lives, as `vars` set them.
pub open spec fn lifetime_days(vars: Seq<(String, String)>) -> int {
    match lookup(vars, RusConf::LinkDaysLifeTime.spec_name()) {
        Some(text) => match parsed_i64(text) {
            Some(number) => number,
            None => DEFAULT_LINK_LIFETIME as int,
        },
        None => DEFAULT_LINK_LIFETIME as int,
    }
}

/// The address that the server listens on: host and port as `vars` set
/// them or by default, with a colon between.
pub fn server_url(vars: &Vec<(String, String)>) -> (r: String)
    ensures
        r@ == setting_or(vars@, RusConf::WebHost, DEFAULT_WEB_HOST@) + ":"@ + setting_or(
            vars@,
            RusConf::WebPort,
            DEFAULT_WEB_PORT@,
        ),
{
    let host = RusConf::WebHost.get_or(vars, DEFAULT_WEB_HOST.to_owned());
    let port = RusConf::WebPort.get_or(vars, DEFAULT_WEB_PORT.to_owned());
    host.concat(":").concat(port.as_str())
}

/// The lifetime of a new redirection: the days that `vars` set, or the
/// default, unless they are more than a lifetime holds.
pub fn link_lifetime(vars: &Vec<(String, String)>) -> (r: Option<Lifetime>)
    ensures
        r is Some <==> -MAX_LIFETIME_SECS <= lifetime_days(vars@) * SECS_PER_DAY
            <= MAX_LIFETIME_SECS,
        r is Some ==> r->0@ == lifetime_days(vars@) * SECS_PER_DAY && r->0.wf(),
{
    Lifetime::days(RusConf::LinkDaysLifeTime.get_i64_or(vars, DEFAULT_LINK_LIFETIME))
}

} // verus!
