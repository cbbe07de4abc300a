//! Splitting a `host:port` address into its host and its port.
use vstd::prelude::*;

verus! {

/// Why an address could not be split into a host and a port.
#[derive(Debug, Clone, Copy, PartialEq, Eq, Structural)]
pub enum AddrError {
    /// The address holds no `:`.
    InvalidFormat,
    /// What follows the last `:` is not a port number.
    InvalidPort,
}

pub open spec fn is_digit(c: char) -> bool {
    '0' <= c && c <= '9'
}

pub open spec fn digit_value(c: char) -> int {
    (c as int) - ('0' as int)
}

pub open spec fn all_digits(s: Seq<char>) -> bool {
    forall|i: int| 0 <= i < s.len() ==> is_digit(#[trigger] s[i])
}

/// The number that a sequence of decimal digits denotes.
pub open spec fn decimal_value(s: Seq<char>) -> int
    decreases s.len(),
{
    if s.len() == 0 {
        0
    } else {
        decimal_value(s.drop_last()) * 10 + digit_value(s.last())
    }
}

/// The digits of a port: the text without one leading `+`, if it has one.
pub open spec fn port_digits(s: Seq<char>) -> Seq<char> {
    if s.len() > 0 && s[0] == '+' {
        s.drop_first()
    } else {
        s
    }
}

/// A port as `u16` parses it from text: an optional `+`, then one or more
/// decimal digits whose value fits in 16 bits.
pub open spec fn parse_port(s: Seq<char>) -> Option<u16> {
    let d = port_digits(s);
    if d.len() > 0 && all_digits(d) && decimal_value(d) <= 65535 {
        Some(decimal_value(d) as u16)
    } else {
        None
    }
}

pub open spec fn has_colon(s: Seq<char>) -> bool {
    exists|i: int| 0 <= i < s.len() && s[i] == ':'
}

/// `i` is the position of the last `:` of `s`.
pub open spec fn is_last_colon(s: Seq<char>, i: int) -> bool {
    &&& 0 <= i < s.len()
    &&& s[i] == ':'
    &&& forall|j: int| i < j < s.len() ==> s[j] != ':'
}

pub open spec fn last_colon(s: Seq<char>) -> int {
    choose|i: int| is_last_colon(s, i)
}

/// The host and port of an address: the text before the last `:` and the
/// port that the text after it denotes.
pub open spec fn spec_host_port(s: Seq<char>) -> Result<(Seq<char>, u16), AddrError> {
    if !has_colon(s) {
        Err(AddrError::InvalidFormat)
    } else {
        let i = last_colon(s);
        match parse_port(s.subrange(i + 1, s.len() as int)) {
            Some(port) => Ok((s.subrange(0, i), port)),
            None => Err(AddrError::InvalidPort),
        }
    }
}

proof fn lemma_last_colon_unique(s: Seq<char>, i: int)
    requires
        is_last_colon(s, i),
    ensures
        last_colon(s) == i,
{
    let k = last_colon(s);
    assert(is_last_colon(s, k));
    if k < i {
        assert(s[i] != ':');
    } else if i < k {
        assert(s[k] != ':');
    }
}

/// A sequence of digits denotes at least what any of its prefixes denotes.
proof fn lemma_decimal_prefix(d: Seq<char>, k: int)
    requires
        all_digits(d),
        0 <= k <= d.len(),
    ensures
        0 <= decimal_value(d.subrange(0, k)) <= decimal_value(d),
    decreases d.len(),
{
    if d.len() == 0 {
        assert(d.subrange(0, k) =~= d);
    } else if k == d.len() {
        assert(d.subrange(0, k) =~= d);
        lemma_decimal_prefix(d.drop_last(), k - 1);
        assert(is_digit(d[d.len() - 1]));
    } else {
        let p = d.drop_last();
        assert(all_digits(p)) by {
            assert forall|i: int| 0 <= i < p.len() implies is_digit(#[trigger] p[i]) by {
                assert(p[i] == d[i]);
            }
        }
        lemma_decimal_prefix(p, k);
        assert(p.subrange(0, k) =~= d.subrange(0, k));
        lemma_decimal_prefix(p, p.len() as int);
        assert(p.subrange(0, p.len() as int) =~= p);
        assert(is_digit(d[d.len() - 1]));
    }
}

/// Finds the position of the last `:` in `s`.
fn find_last_colon(s: &str) -> (r: Option<usize>)
    ensures
        s@.len() <= usize::MAX,
        match r {
            Some(i) => is_last_colon(s@, i as int),
            None => !has_colon(s@),
        },
{
    let n = s.unicode_len();
    let mut i = n;
    while i > 0
        invariant
            n == s@.len(),
            i <= n,
            forall|j: int| i <= j < n ==> s@[j] != ':',
        decreases i,
    {
        if s.get_char(i - 1) == ':' {
            return Some(i - 1);
        }
        i = i - 1;
    }
    None
}

/// Parses the port written in `s` from position `start` on.
fn parse_port_from(s: &str, start: usize) -> (r: Option<u16>)
    requires
        start <= s@.len(),
    ensures
        r == parse_port(s@.subrange(start as int, s@.len() as int)),
{
    let n = s.unicode_len();
    let ghost t = s@.subrange(start as int, n as int);
    let mut first = start;
    if start < n && s.get_char(start) == '+' {
        first = start + 1;
    }
    let ghost d = port_digits(t);
    assert(d =~= s@.subrange(first as int, n as int));
    if first == n {
        return None;
    }
    let mut value: u32 = 0;
    let mut k = first;
    while k < n
        invariant
            n == s@.len(),
            first <= k <= n,
            d == s@.subrange(first as int, n as int),
            d == port_digits(s@.subrange(start as int, n as int)),
            forall|j: int| 0 <= j < k - first ==> is_digit(#[trigger] d[j]),
            value as int == decimal_value(d.subrange(0, k - first)),
            value <= 65535,
        decreases n - k,
    {
        let c = s.get_char(k);
        if c < '0' || c > '9' {
            assert(!is_digit(d[k - first]));
            return None;
        }
        let digit = (c as u32) - ('0' as u32);
        let ghost prefix = d.subrange(0, k + 1 - first);
        assert(prefix.drop_last() =~= d.subrange(0, k - first));
        assert(prefix.last() == c);
        value = value * 10 + digit;
        if value > 65535 {
            proof {
                if all_digits(d) {
                    lemma_decimal_prefix(d, k + 1 - first);
                }
            }
            return None;
        }
        k = k + 1;
    }
    assert(d.subrange(0, k - first) =~= d);
    Some(value as u16)
}

/// Splits an address of the form `host:port` at its last `:`.
///
/// Fails with `InvalidFormat` when the address holds no `:`, and with
/// `InvalidPort` when the text after the last `:` is not a port number.
pub fn host_port(addr: &str) -> (r: Result<(&str, u16), AddrError>)
    ensures
        match r {
            Ok((host, port)) => spec_host_port(addr@) == Ok::<(Seq<char>, u16), AddrError>(
                (host@, port),
            ),
            Err(e) => spec_host_port(addr@) == Err::<(Seq<char>, u16), AddrError>(e),
        },
{
    match find_last_colon(addr) {
        None => Err(AddrError::InvalidFormat),
        Some(i) => {
            proof {
                lemma_last_colon_unique(addr@, i as int);
            }
            match parse_port_from(addr, i + 1) {
                None => Err(AddrError::InvalidPort),
                Some(port) => {
                    let host = addr.substring_char(0, i);
                    Ok((host, port))
                },
            }
        },
    }
}

/// The decimal digit for `d`, from `0` to `9`.
pub open spec fn digit_char(d: int) -> char {
    if d == 0 {
        '0'
    } else if d == 1 {
        '1'
    } else if d == 2 {
        '2'
    } else if d == 3 {
        '3'
    } else if d == 4 {
        '4'
    } else if d == 5 {
        '5'
    } else if d == 6 {
        '6'
    } else if d == 7 {
        '7'
    } else if d == 8 {
        '8'
    } else {
        '9'
    }
}

/// The decimal text of a number, without leading zeros.
pub open spec fn decimal_text(n: nat) -> Seq<char>
    decreases n,
{
    if n < 10 {
        seq![digit_char(n as int)]
    } else {
        decimal_text(n / 10).push(digit_char((n % 10) as int))
    }
}

proof fn lemma_decimal_text(n: nat)
    ensures
        decimal_text(n).len() > 0,
        all_digits(decimal_text(n)),
        decimal_value(decimal_text(n)) == n,
        forall|i: int| 0 <= i < decimal_text(n).len() ==> #[trigger] decimal_text(n)[i] != ':'
            && decimal_text(n)[i] != '+',
    decreases n,
{
    let t = decimal_text(n);
    if n < 10 {
        assert(t.drop_last() =~= Seq::<char>::empty());
        assert(decimal_value(t.drop_last()) == 0);
    } else {
        lemma_decimal_text(n / 10);
        let p = decimal_text(n / 10);
        assert(t.drop_last() =~= p);
        assert(t.last() == digit_char((n % 10) as int));
        assert(digit_value(digit_char((n % 10) as int)) == n % 10);
        assert(n == (n / 10) * 10 + n % 10);
        assert forall|i: int| 0 <= i < t.len() implies is_digit(#[trigger] t[i]) && t[i] != ':'
            && t[i] != '+' by {
            if i < p.len() {
                assert(t[i] == p[i]);
            }
        }
    }
}

/// Splitting is the inverse of writing `host:port`: whatever the host holds,
/// colons included, the text `host:port` splits into that host and that port.
pub proof fn lemma_host_port_round_trip(host: Seq<char>, port: u16)
    ensures
        spec_host_port(host + seq![':'] + decimal_text(port as nat)) == Ok::<
            (Seq<char>, u16),
            AddrError,
        >((host, port)),
{
    let text = decimal_text(port as nat);
    let s = host + seq![':'] + text;
    let i = host.len() as int;
    lemma_decimal_text(port as nat);
    assert(s[i] == ':');
    assert(has_colon(s));
    assert forall|j: int| i < j < s.len() implies s[j] != ':' by {
        assert(s[j] == text[j - i - 1]);
    }
    assert(is_last_colon(s, i));
    lemma_last_colon_unique(s, i);
    assert(s.subrange(i + 1, s.len() as int) =~= text);
    assert(port_digits(text) =~= text);
    assert(s.subrange(0, i) =~= host);
}

/// Without a `:` there is no port to split off.
pub proof fn lemma_no_colon_invalid_format(s: Seq<char>)
    requires
        forall|i: int| 0 <= i < s.len() ==> s[i] != ':',
    ensures
        spec_host_port(s) == Err::<(Seq<char>, u16), AddrError>(AddrError::InvalidFormat),
{
}

} // verus!
