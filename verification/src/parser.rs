use vstd::prelude::*;
use vstd::string::StrSliceExecFns;

use crate::command::{Command, ParseError};

verus! {

/// Whether `c` is an ASCII decimal digit.
pub open spec fn is_digit(c: char) -> bool {
    48 <= (c as nat) && (c as nat) <= 57
}

/// The numeric value of an ASCII decimal digit.
pub open spec fn digit_val(c: char) -> nat {
    ((c as nat) - 48) as nat
}

/// Whether every character of `s` is an ASCII decimal digit.
pub open spec fn all_digits(s: Seq<char>) -> bool {
    forall|i: int| 0 <= i < s.len() ==> is_digit(#[trigger] s[i])
}

/// The value of a string of decimal digits, most significant first.
pub open spec fn dec_value(s: Seq<char>) -> nat
    decreases s.len(),
{
    if s.len() == 0 {
        0
    } else {
        10 * dec_value(s.drop_last()) + digit_val(s.last())
    }
}

/// The length of the longest run of decimal digits at the front of `s`.
pub open spec fn digit_prefix_len(s: Seq<char>) -> nat
    decreases s.len(),
{
    if s.len() == 0 || !is_digit(s[0]) {
        0
    } else {
        (1 + digit_prefix_len(s.drop_first())) as nat
    }
}

/// The meaning of the `number` rule applied to the whole of `s`:
/// one or more digits whose value fits in eight bits, nothing else.
pub open spec fn spec_number(s: Seq<char>) -> Option<u8> {
    if s.len() > 0 && all_digits(s) && dec_value(s) <= 255 {
        Some(dec_value(s) as u8)
    } else {
        None
    }
}

/// The meaning of the arguments of `set`, after the keyword and its
/// following space: a number, one space, then `high` or `low`.
pub open spec fn spec_set_args(s: Seq<char>) -> Option<Command> {
    let n = digit_prefix_len(s) as int;
    match spec_number(s.take(n)) {
        Some(pin) => if s.skip(n) == " high"@ {
            Some(Command::SetPin { pin, value: true })
        } else if s.skip(n) == " low"@ {
            Some(Command::SetPin { pin, value: false })
        } else {
            None
        },
        None => None,
    }
}

/// The command grammar. A line of text means at most one command:
///
/// ```text
/// command := "help"
///          | "led" " " ("on" | "off")
///          | "get" " " number
///          | "set" " " number " " ("high" | "low")
///          | "pwm" " " number
///          | "adc" " " number
///          | "temp"
/// number  := digit+        -- value at most 255
/// ```
///
/// Keywords are case-sensitive, the separator is a single space, and the
/// whole line must be consumed. A digit run whose value exceeds 255 fails
/// the grammar outright, so an overlong number is indistinguishable from
/// any other malformed line.
pub open spec fn spec_parse(s: Seq<char>) -> Option<Command> {
    if s == "help"@ {
        Some(Command::Help)
    } else if s == "temp"@ {
        Some(Command::Temp)
    } else if s == "led on"@ {
        Some(Command::Led(true))
    } else if s == "led off"@ {
        Some(Command::Led(false))
    } else if s.len() >= 4 && s.take(4) == "get "@ {
        match spec_number(s.skip(4)) {
            Some(pin) => Some(Command::GetPin { pin }),
            None => None,
        }
    } else if s.len() >= 4 && s.take(4) == "pwm "@ {
        match spec_number(s.skip(4)) {
            Some(duty_cycle) => Some(Command::Pwm { duty_cycle }),
            None => None,
        }
    } else if s.len() >= 4 && s.take(4) == "adc "@ {
        match spec_number(s.skip(4)) {
            Some(pin) => Some(Command::Adc { pin }),
            None => None,
        }
    } else if s.len() >= 4 && s.take(4) == "set "@ {
        spec_set_args(s.skip(4))
    } else {
        None
    }
}

/// A digit run never loses value as it grows: the value of a prefix of
/// an all-digit string is bounded by the value of the whole string.
proof fn lemma_dec_value_prefix(s: Seq<char>, n: int)
    requires
        0 <= n <= s.len(),
        all_digits(s),
    ensures
        dec_value(s.take(n)) <= dec_value(s),
    decreases s.len() - n,
{
    if n == s.len() {
        assert(s.take(n) =~= s);
    } else {
        assert(s.take(n + 1).drop_last() =~= s.take(n));
        assert(dec_value(s.take(n + 1)) == 10 * dec_value(s.take(n)) + digit_val(s.take(n + 1).last()));
        lemma_dec_value_prefix(s, n + 1);
    }
}

/// `digit_prefix_len` is pinned down by its defining property: `n` digits
/// followed by the end of the string or a non-digit.
proof fn lemma_digit_prefix_len_is(s: Seq<char>, n: int)
    requires
        0 <= n <= s.len(),
        forall|i: int| 0 <= i < n ==> is_digit(#[trigger] s[i]),
        n == s.len() || !is_digit(s[n]),
    ensures
        digit_prefix_len(s) == n,
    decreases s.len(),
{
    if s.len() == 0 || !is_digit(s[0]) {
    } else {
        lemma_digit_prefix_len_is(s.drop_first(), n - 1);
    }
}

/// Decode the digit run `s[from..]`, which must make up the rest of the
/// string, as the `number` rule does.
fn parse_number_all(s: &str, from: usize) -> (r: Option<u8>)
    requires
        from <= s@.len(),
    ensures
        r == spec_number(s@.skip(from as int)),
{
    let ghost t = s@.skip(from as int);
    let n = s.unicode_len();
    if from == n {
        return None;
    }
    let mut acc: u32 = 0;
    let mut i: usize = from;
    while i < n
        invariant
            from <= i <= n,
            n == s@.len(),
            t == s@.skip(from as int),
            forall|j: int| 0 <= j < i - from ==> is_digit(#[trigger] t[j]),
            acc == dec_value(t.take(i - from)),
            acc <= 255,
        decreases n - i,
    {
        let c = s.get_char(i);
        let u = c as u32;
        if u < 48 || u > 57 {
            assert(!is_digit(t[i - from]));
            return None;
        }
        proof {
            assert(t.take(i + 1 - from).drop_last() =~= t.take(i - from));
        }
        acc = acc * 10 + (u - 48);
        i = i + 1;
        if acc > 255 {
            proof {
                if all_digits(t) {
                    lemma_dec_value_prefix(t, i - from);
                }
            }
            return None;
        }
    }
    proof {
        assert(t.take(n - from) =~= t);
    }
    Some(acc as u8)
}

/// Whether `s@` and `t@` are the same sequence of characters.
fn str_eq(s: &str, t: &str) -> (r: bool)
    ensures
        r == (s@ == t@),
{
    let n = s.unicode_len();
    if n != t.unicode_len() {
        return false;
    }
    let mut i: usize = 0;
    while i < n
        invariant
            i <= n,
            n == s@.len() == t@.len(),
            forall|j: int| 0 <= j < i ==> s@[j] == t@[j],
        decreases n - i,
    {
        if s.get_char(i) != t.get_char(i) {
            return false;
        }
        i = i + 1;
    }
    proof {
        assert(s@ =~= t@);
    }
    true
}

/// Whether `s@` starts with the characters of `p@`.
fn has_prefix(s: &str, p: &str) -> (r: bool)
    ensures
        r == (s@.len() >= p@.len() && s@.take(p@.len() as int) == p@),
{
    let n = p.unicode_len();
    if s.unicode_len() < n {
        return false;
    }
    let mut i: usize = 0;
    while i < n
        invariant
            i <= n,
            n == p@.len() <= s@.len(),
            forall|j: int| 0 <= j < i ==> s@[j] == p@[j],
        decreases n - i,
    {
        if s.get_char(i) != p.get_char(i) {
            assert(s@.take(n as int)[i as int] != p@[i as int]);
            return false;
        }
        i = i + 1;
    }
    proof {
        assert(s@.take(n as int) =~= p@);
    }
    true
}

/// Whether `s[from..]` is exactly the characters of `t@`.
fn tail_eq(s: &str, from: usize, t: &str) -> (r: bool)
    requires
        from <= s@.len(),
    ensures
        r == (s@.skip(from as int) == t@),
{
    let n = s.unicode_len();
    let m = t.unicode_len();
    if n - from != m {
        return false;
    }
    let mut i: usize = 0;
    while i < m
        invariant
            i <= m,
            from + m == n,
            n == s@.len(),
            m == t@.len(),
            forall|j: int| 0 <= j < i ==> s@[from + j] == t@[j],
        decreases m - i,
    {
        if s.get_char(from + i) != t.get_char(i) {
            assert(s@.skip(from as int)[i as int] != t@[i as int]);
            return false;
        }
        i = i + 1;
    }
    proof {
        assert(s@.skip(from as int) =~= t@);
    }
    true
}

/// Find the end of the run of decimal digits starting at `from`.
fn scan_digits(s: &str, from: usize) -> (j: usize)
    requires
        from <= s@.len(),
    ensures
        from <= j <= s@.len(),
        forall|k: int| from <= k < j ==> is_digit(#[trigger] s@[k]),
        j == s@.len() || !is_digit(s@[j as int]),
{
    let n = s.unicode_len();
    let mut i: usize = from;
    while i < n
        invariant
            from <= i <= n,
            n == s@.len(),
            forall|k: int| from <= k < i ==> is_digit(#[trigger] s@[k]),
        decreases n - i,
    {
        let c = s.get_char(i);
        let u = c as u32;
        if u < 48 || u > 57 {
            return i;
        }
        i = i + 1;
    }
    i
}

/// Parse the arguments of `set`, starting at `from` (just past the
/// keyword and its space): a pin number, one space, `high` or `low`.
#[verifier::loop_isolation(false)]
fn parse_set_args(s: &str, from: usize) -> (r: Option<Command>)
    requires
        from <= s@.len(),
    ensures
        r == spec_set_args(s@.skip(from as int)),
{
    let ghost t = s@.skip(from as int);
    let j = scan_digits(s, from);
    proof {
        assert(forall|k: int| 0 <= k < j - from ==> t[k] == s@[from + k] && is_digit(#[trigger] t[k]));
        lemma_digit_prefix_len_is(t, j - from);
    }
    let ghost d = t.take(j - from);
    if j == from {
        return None;
    }
    let mut acc: u32 = 0;
    let mut i: usize = from;
    while i < j
        invariant
            from <= i <= j <= s@.len(),
            t == s@.skip(from as int),
            d == t.take(j - from),
            forall|k: int| from <= k < j ==> is_digit(#[trigger] s@[k]),
            forall|k: int| 0 <= k < j - from ==> t[k] == s@[from + k],
            acc == dec_value(t.take(i - from)),
            acc <= 255,
        decreases j - i,
    {
        let c = s.get_char(i);
        let u = c as u32;
        proof {
            assert(t.take(i + 1 - from).drop_last() =~= t.take(i - from));
        }
        acc = acc * 10 + (u - 48);
        i = i + 1;
        if acc > 255 {
            proof {
                assert(acc == dec_value(t.take(i - from)));
                assert forall|k: int| 0 <= k < d.len() implies is_digit(#[trigger] d[k]) by {
                    assert(d[k] == t[k]);
                }
                assert(d.take(i - from) =~= t.take(i - from));
                lemma_dec_value_prefix(d, i - from);
                assert(dec_value(d) > 255);
            }
            return None;
        }
    }
    proof {
        assert(t.take(j - from) == d);
    }
    let pin = acc as u8;
    if tail_eq(s, j, " high") {
        proof {
            assert(t.skip(j - from) =~= s@.skip(j as int));
        }
        Some(Command::SetPin { pin, value: true })
    } else if tail_eq(s, j, " low") {
        proof {
            assert(t.skip(j - from) =~= s@.skip(j as int));
        }
        Some(Command::SetPin { pin, value: false })
    } else {
        proof {
            assert(t.skip(j - from) =~= s@.skip(j as int));
        }
        None
    }
}

/// Parse one whole line as a command.
///
/// Succeeds with `Ok(c)` exactly when the line matches the grammar of
/// [`spec_parse`] with meaning `c`, and fails with `Err(ParseError)`
/// exactly when it does not.
pub fn parse_command(s: &str) -> (r: Result<Command, ParseError>)
    ensures
        match r {
            Ok(c) => spec_parse(s@) == Some(c),
            Err(_) => spec_parse(s@) is None,
        },
{
    proof {
        reveal_strlit("help");
        reveal_strlit("temp");
        reveal_strlit("led on");
        reveal_strlit("led off");
        reveal_strlit("get ");
        reveal_strlit("pwm ");
        reveal_strlit("adc ");
        reveal_strlit("set ");
    }
    if str_eq(s, "help") {
        Ok(Command::Help)
    } else if str_eq(s, "temp") {
        Ok(Command::Temp)
    } else if str_eq(s, "led on") {
        Ok(Command::Led(true))
    } else if str_eq(s, "led off") {
        Ok(Command::Led(false))
    } else if has_prefix(s, "get ") {
        match parse_number_all(s, 4) {
            Some(pin) => Ok(Command::GetPin { pin }),
            None => Err(ParseError),
        }
    } else if has_prefix(s, "pwm ") {
        match parse_number_all(s, 4) {
            Some(duty_cycle) => Ok(Command::Pwm { duty_cycle }),
            None => Err(ParseError),
        }
    } else if has_prefix(s, "adc ") {
        match parse_number_all(s, 4) {
            Some(pin) => Ok(Command::Adc { pin }),
            None => Err(ParseError),
        }
    } else if has_prefix(s, "set ") {
        match parse_set_args(s, 4) {
            Some(c) => Ok(c),
            None => Err(ParseError),
        }
    } else {
        Err(ParseError)
    }
}

} // verus!

