//! Socket addresses in text, in the forms that the platform's socket-address
//! parser reads: `a.b.c.d:port` for IPv4, `[address]:port` or
//! `[address%scope]:port` for IPv6.
//!
//! An octet is one to three decimal digits without a leading zero, at most 255.
//! A port (at most 65535) and a scope id (at most 4294967295) are decimal and may
//! have leading zeros. An IPv6 address is groups of one to four hex digits, of
//! either case, separated by `:`, with at most one `::` standing for one or more
//! zero groups; it may end in a dotted IPv4 address, which counts as two groups.

use vstd::prelude::*;

verus! {

pub open spec fn is_digit(c: char) -> bool {
    '0' <= c <= '9'
}

/// The length of the run of decimal digits in `s` that starts at `i`.
pub open spec fn digit_run(s: Seq<char>, i: int) -> nat
    decreases s.len() - i,
{
    if 0 <= i < s.len() && is_digit(s[i]) {
        1 + digit_run(s, i + 1)
    } else {
        0
    }
}

spec fn pow10(n: int) -> int
    decreases n,
{
    if n <= 0 {
        1
    } else {
        10 * pow10(n - 1)
    }
}

/// The value of the `n` decimal digits of `s` that start at `i`.
pub open spec fn decimal(s: Seq<char>, i: int, n: int) -> int
    decreases n,
{
    if n <= 0 {
        0
    } else {
        decimal(s, i, n - 1) * 10 + (s[i + n - 1] as int - '0' as int)
    }
}

/// Where a decimal number no greater than `max`, written from `i`, ends; none if
/// no such number is written there.
pub open spec fn number_end(s: Seq<char>, i: int, max: int) -> Option<int> {
    let n = digit_run(s, i) as int;
    if n >= 1 && decimal(s, i, n) <= max {
        Some(i + n)
    } else {
        None
    }
}

/// Where an octet written from `i` ends: one to three digits, without a leading
/// zero, at most 255.
pub open spec fn octet_end(s: Seq<char>, i: int) -> Option<int> {
    let n = digit_run(s, i) as int;
    if 1 <= n <= 3 && (n == 1 || s[i] != '0') && decimal(s, i, n) <= 255 {
        Some(i + n)
    } else {
        None
    }
}

/// From `start`, an octet followed by the character `sep`; where the text after
/// the separator starts.
pub open spec fn octet_then(s: Seq<char>, start: Option<int>, sep: char) -> Option<int> {
    match start {
        Some(i) => match octet_end(s, i) {
            Some(e) => if e < s.len() && s[e] == sep {
                Some(e + 1)
            } else {
                None
            },
            None => None,
        },
        None => None,
    }
}

/// `s` is `a.b.c.d:port`.
pub open spec fn is_ipv4_socket_address(s: Seq<char>) -> bool {
    let port_start = octet_then(
        s,
        octet_then(s, octet_then(s, octet_then(s, Some(0), '.'), '.'), '.'),
        ':',
    );
    match port_start {
        Some(p) => number_end(s, p, 65535) == Some(s.len() as int),
        None => false,
    }
}

pub open spec fn is_hex(c: char) -> bool {
    is_digit(c) || ('a' <= c <= 'f') || ('A' <= c <= 'F')
}

/// The length of the run of hex digits in `s` that starts at `i`.
pub open spec fn hex_run(s: Seq<char>, i: int) -> nat
    decreases s.len() - i,
{
    if 0 <= i < s.len() && is_hex(s[i]) {
        1 + hex_run(s, i + 1)
    } else {
        0
    }
}

/// Where a group of one to four hex digits written from `i` ends.
pub open spec fn group_end(s: Seq<char>, i: int) -> Option<int> {
    let n = hex_run(s, i) as int;
    if 1 <= n <= 4 {
        Some(i + n)
    } else {
        None
    }
}

/// Where a dotted IPv4 address written from `i` ends.
pub open spec fn ipv4_end(s: Seq<char>, i: int) -> Option<int> {
    match octet_then(s, octet_then(s, octet_then(s, Some(i), '.'), '.'), '.') {
        Some(p) => octet_end(s, p),
        None => None,
    }
}

/// `s[i..end]`, which starts with a group, completes an IPv6 address of which
/// `groups` groups have been read, `gap` telling whether a `::` has been.
pub open spec fn ipv6_rest(s: Seq<char>, i: int, end: int, groups: int, gap: bool) -> bool
    decreases end - i,
{
    if !(0 <= i < end) || groups >= 8 {
        false
    } else if ipv4_end(s, i) == Some(end) {
        if gap {
            groups + 2 <= 7
        } else {
            groups + 2 == 8
        }
    } else {
        match group_end(s, i) {
            None => false,
            Some(k) => if k == end {
                if gap {
                    groups + 1 <= 7
                } else {
                    groups + 1 == 8
                }
            } else if k > end || s[k] != ':' || k + 1 >= end {
                false
            } else if s[k + 1] == ':' {
                !gap && if k + 2 == end {
                    groups + 1 <= 7
                } else {
                    ipv6_rest(s, k + 2, end, groups + 1, true)
                }
            } else {
                ipv6_rest(s, k + 1, end, groups + 1, gap)
            },
        }
    }
}

/// `s[i..end]` is an IPv6 address.
pub open spec fn is_ipv6(s: Seq<char>, i: int, end: int) -> bool {
    if 0 <= i && i + 2 <= end && s[i] == ':' && s[i + 1] == ':' {
        i + 2 == end || ipv6_rest(s, i + 2, end, 0, true)
    } else {
        ipv6_rest(s, i, end, 0, false)
    }
}

/// The first index from `i` that holds `%` or `]`; the length if there is none.
pub open spec fn host_end(s: Seq<char>, i: int) -> int
    decreases s.len() - i,
{
    if i < 0 || i >= s.len() {
        s.len() as int
    } else if s[i] == '%' || s[i] == ']' {
        i
    } else {
        host_end(s, i + 1)
    }
}

/// `s` is `[address]:port` or `[address%scope]:port`.
pub open spec fn is_ipv6_socket_address(s: Seq<char>) -> bool {
    let e = host_end(s, 1);
    let bracket = if e < s.len() && s[e] == '%' {
        number_end(s, e + 1, 4294967295)
    } else {
        Some(e)
    };
    &&& s.len() > 0
    &&& s[0] == '['
    &&& e < s.len()
    &&& is_ipv6(s, 1, e)
    &&& bracket matches Some(b) && b + 1 < s.len() && s[b] == ']' && s[b + 1] == ':' && number_end(
        s,
        b + 2,
        65535,
    ) == Some(s.len() as int)
}

/// `s` is a socket address in text.
pub open spec fn is_socket_address(s: Seq<char>) -> bool {
    is_ipv4_socket_address(s) || is_ipv6_socket_address(s)
}

fn digit_char(c: char) -> (r: bool)
    ensures
        r == is_digit(c),
{
    '0' <= c && c <= '9'
}

fn octet_end_at(s: &str, len: usize, i: usize) -> (r: Option<usize>)
    requires
        len == s@.len(),
        i <= len,
    ensures
        r matches Some(e) ==> e <= len && octet_end(s@, i as int) == Some(e as int),
        r is None ==> octet_end(s@, i as int) is None,
{
    let mut j: usize = i;
    let mut value: u64 = 0;
    let mut limit: u64 = 1;
    while j < len && j - i < 3 && digit_char(s.get_char(j))
        invariant
            len == s@.len(),
            i <= j <= len,
            j - i <= 3,
            digit_run(s@, i as int) == (j - i) + digit_run(s@, j as int),
            value == decimal(s@, i as int, j - i),
            value < limit,
            limit == pow10(j - i),
        decreases len - j,
    {
        proof {
            reveal_with_fuel(pow10, 4);
        }
        assert(limit <= 100);
        let d = (s.get_char(j) as u64) - ('0' as u64);
        assert(value * 10 + d < limit * 10) by (nonlinear_arith)
            requires
                value < limit,
                d <= 9,
        ;
        value = value * 10 + d;
        limit = limit * 10;
        j = j + 1;
    }
    let n = j - i;
    if j < len && n == 3 && digit_char(s.get_char(j)) {
        return None;
    }
    if n == 0 || (n > 1 && s.get_char(i) == '0') || value > 255 {
        return None;
    }
    Some(j)
}

fn number_end_at(s: &str, len: usize, i: usize, max: u64) -> (r: Option<usize>)
    requires
        len == s@.len(),
        i <= len,
        max <= 4294967295,
    ensures
        r matches Some(e) ==> e <= len && number_end(s@, i as int, max as int) == Some(e as int),
        r is None ==> number_end(s@, i as int, max as int) is None,
{
    let mut j: usize = i;
    let mut value: u64 = 0;
    let mut big = false;
    while j < len && digit_char(s.get_char(j))
        invariant
            len == s@.len(),
            i <= j <= len,
            max <= 4294967295,
            digit_run(s@, i as int) == (j - i) + digit_run(s@, j as int),
            !big ==> value == decimal(s@, i as int, j - i) && value <= max,
            big ==> decimal(s@, i as int, j - i) > max,
        decreases len - j,
    {
        let d = (s.get_char(j) as u64) - ('0' as u64);
        let ghost before = decimal(s@, i as int, j - i);
        assert(decimal(s@, i as int, j + 1 - i) == before * 10 + d);
        if big {
            assert(before * 10 + d > max) by (nonlinear_arith)
                requires
                    before > max,
                    max >= 0,
                    d >= 0,
            ;
        } else {
            let next = value * 10 + d;
            if next > max {
                big = true;
            } else {
                value = next;
            }
        }
        j = j + 1;
    }
    if j == i || big {
        return None;
    }
    Some(j)
}

fn octet_then_at(s: &str, len: usize, start: Option<usize>, sep: char) -> (r: Option<usize>)
    requires
        len == s@.len(),
        start matches Some(i) ==> i <= len,
    ensures
        r matches Some(e) ==> e <= len && octet_then(
            s@,
            match start {
                Some(i) => Some(i as int),
                None => None,
            },
            sep,
        ) == Some(e as int),
        r is None ==> octet_then(
            s@,
            match start {
                Some(i) => Some(i as int),
                None => None,
            },
            sep,
        ) is None,
{
    match start {
        None => None,
        Some(i) => match octet_end_at(s, len, i) {
            None => None,
            Some(e) => if e < len && s.get_char(e) == sep {
                Some(e + 1)
            } else {
                None
            },
        },
    }
}

fn hex_char(c: char) -> (r: bool)
    ensures
        r == is_hex(c),
{
    ('0' <= c && c <= '9') || ('a' <= c && c <= 'f') || ('A' <= c && c <= 'F')
}

fn group_end_at(s: &str, len: usize, i: usize) -> (r: Option<usize>)
    requires
        len == s@.len(),
        i <= len,
    ensures
        r matches Some(e) ==> group_end(s@, i as int) == Some(e as int),
        r is None ==> group_end(s@, i as int) is None,
{
    let mut j: usize = i;
    while j < len && j - i < 4 && hex_char(s.get_char(j))
        invariant
            len == s@.len(),
            i <= j <= len,
            j - i <= 4,
            hex_run(s@, i as int) == (j - i) + hex_run(s@, j as int),
        decreases len - j,
    {
        j = j + 1;
    }
    let n = j - i;
    if j < len && n == 4 && hex_char(s.get_char(j)) {
        return None;
    }
    if n == 0 {
        return None;
    }
    Some(j)
}

fn ipv4_end_at(s: &str, len: usize, i: usize) -> (r: Option<usize>)
    requires
        len == s@.len(),
        i <= len,
    ensures
        r matches Some(e) ==> ipv4_end(s@, i as int) == Some(e as int),
        r is None ==> ipv4_end(s@, i as int) is None,
{
    let p1 = octet_then_at(s, len, Some(i), '.');
    let p2 = octet_then_at(s, len, p1, '.');
    let p3 = octet_then_at(s, len, p2, '.');
    match p3 {
        None => None,
        Some(p) => octet_end_at(s, len, p),
    }
}

fn ipv6_rest_at(s: &str, len: usize, i: usize, end: usize, groups: usize, gap: bool) -> (r: bool)
    requires
        len == s@.len(),
        i <= end <= len,
        groups <= 8,
    ensures
        r == ipv6_rest(s@, i as int, end as int, groups as int, gap),
    decreases end - i,
{
    if i >= end || groups >= 8 {
        return false;
    }
    if let Some(e) = ipv4_end_at(s, len, i) {
        if e == end {
            return if gap {
                groups + 2 <= 7
            } else {
                groups + 2 == 8
            };
        }
    }
    match group_end_at(s, len, i) {
        None => false,
        Some(k) => if k == end {
            if gap {
                groups + 1 <= 7
            } else {
                groups + 1 == 8
            }
        } else if k > end || s.get_char(k) != ':' || k + 1 >= end {
            false
        } else if s.get_char(k + 1) == ':' {
            !gap && if k + 2 == end {
                groups + 1 <= 7
            } else {
                ipv6_rest_at(s, len, k + 2, end, groups + 1, true)
            }
        } else {
            ipv6_rest_at(s, len, k + 1, end, groups + 1, gap)
        },
    }
}

fn host_end_at(s: &str, len: usize, i: usize) -> (r: usize)
    requires
        len == s@.len(),
        i <= len,
    ensures
        r == host_end(s@, i as int),
        i <= r <= len,
{
    let mut j: usize = i;
    while j < len && s.get_char(j) != '%' && s.get_char(j) != ']'
        invariant
            len == s@.len(),
            i <= j <= len,
            host_end(s@, i as int) == host_end(s@, j as int),
        decreases len - j,
    {
        j = j + 1;
    }
    j
}

fn is_ipv6_socket_address_text(s: &str, len: usize) -> (r: bool)
    requires
        len == s@.len(),
    ensures
        r == is_ipv6_socket_address(s@),
{
    if len == 0 || s.get_char(0) != '[' {
        return false;
    }
    let e = host_end_at(s, len, 1);
    if e >= len {
        return false;
    }
    let ipv6 = if e >= 3 && s.get_char(1) == ':' && s.get_char(2) == ':' {
        e == 3 || ipv6_rest_at(s, len, 3, e, 0, true)
    } else {
        ipv6_rest_at(s, len, 1, e, 0, false)
    };
    if !ipv6 {
        return false;
    }
    let bracket = if s.get_char(e) == '%' {
        number_end_at(s, len, e + 1, 4294967295)
    } else {
        Some(e)
    };
    match bracket {
        None => false,
        Some(b) => if b < len && b + 1 < len && s.get_char(b) == ']' && s.get_char(b + 1) == ':' {
            match number_end_at(s, len, b + 2, 65535) {
                Some(p) => p == len,
                None => false,
            }
        } else {
            false
        },
    }
}

/// Tells whether `s` is a socket address in text.
pub fn is_socket_address_text(s: &str) -> (r: bool)
    ensures
        r == is_socket_address(s@),
{
    let len = s.unicode_len();
    if is_ipv6_socket_address_text(s, len) {
        return true;
    }
    let p1 = octet_then_at(s, len, Some(0), '.');
    let p2 = octet_then_at(s, len, p1, '.');
    let p3 = octet_then_at(s, len, p2, '.');
    let p4 = octet_then_at(s, len, p3, ':');
    match p4 {
        None => false,
        Some(p) => match number_end_at(s, len, p, 65535) {
            Some(e) => e == len,
            None => false,
        },
    }
}

} // verus!
