//! Socket addresses as text: which texts read as an IP address and a port,
//! by the grammar of the standard library's `SocketAddr` parser (an IPv4
//! address and a port, or a bracketed IPv6 address with an optional zone
//! index and a port).

use vstd::prelude::*;

verus! {

// ---------------------------------------------------------------------------
// The grammar.
// ---------------------------------------------------------------------------

/// The value of a digit in base 10 or 16.
pub open spec fn digit_value(c: char, radix: nat) -> Option<nat> {
    if '0' <= c && c <= '9' {
        Some((c as int - 48) as nat)
    } else if radix == 16 && 'a' <= c && c <= 'f' {
        Some((c as int - 87) as nat)
    } else if radix == 16 && 'A' <= c && c <= 'F' {
        Some((c as int - 55) as nat)
    } else {
        None
    }
}

/// The number of digits in a row from `pos`.
pub open spec fn digit_run(t: Seq<char>, pos: int, radix: nat) -> nat
    decreases t.len() - pos,
{
    if 0 <= pos < t.len() && digit_value(t[pos], radix) is Some {
        1 + digit_run(t, pos + 1, radix)
    } else {
        0
    }
}

/// The value of the `n` digits from `pos`.
pub open spec fn digits_value(t: Seq<char>, pos: int, n: nat, radix: nat) -> nat
    decreases n,
{
    if n == 0 {
        0
    } else {
        digits_value(t, pos, (n - 1) as nat, radix) * radix + digit_value(t[pos + n - 1], radix).unwrap()
    }
}

/// A number read from `pos`: all the digits in a row, at least one and at
/// most `max_digits`, of value at most `max_value`, and without a leading
/// zero unless `zero_prefix`; its value and the position after it.
pub open spec fn read_number(t: Seq<char>, pos: int, radix: nat, max_digits: nat, max_value: nat, zero_prefix: bool) -> Option<(nat, int)> {
    let n = digit_run(t, pos, radix);
    let v = digits_value(t, pos, n, radix);
    if n == 0 || n > max_digits || v > max_value || (!zero_prefix && t[pos] == '0' && n > 1) {
        None
    } else {
        Some((v, pos + n))
    }
}

/// The position after a number read from `pos`.
pub open spec fn number_end(t: Seq<char>, pos: int, radix: nat, max_digits: nat, max_value: nat, zero_prefix: bool) -> Option<int> {
    match read_number(t, pos, radix, max_digits, max_value, zero_prefix) {
        Some((_, e)) => Some(e),
        None => None,
    }
}

/// The character `c` stands at `pos`.
pub open spec fn char_at(t: Seq<char>, pos: int, c: char) -> bool {
    0 <= pos < t.len() && t[pos] == c
}

/// The position after the separator `c` that precedes every item but the first.
pub open spec fn after_separator(t: Seq<char>, pos: int, i: nat, c: char) -> Option<int> {
    if i == 0 {
        Some(pos)
    } else if char_at(t, pos, c) {
        Some(pos + 1)
    } else {
        None
    }
}

/// The end of the IPv4 octets `i..4` read from `pos`: decimal numbers up to
/// 255 of at most three digits, without leading zero, separated by dots.
pub open spec fn ipv4_from(t: Seq<char>, pos: int, i: nat) -> Option<int>
    decreases 4 - i,
{
    if i >= 4 {
        Some(pos)
    } else {
        match after_separator(t, pos, i, '.') {
            None => None,
            Some(p) => match number_end(t, p, 10, 3, 255, false) {
                None => None,
                Some(e) => ipv4_from(t, e, i + 1),
            },
        }
    }
}

/// The end of an IPv4 address read from `pos`.
pub open spec fn read_ipv4(t: Seq<char>, pos: int) -> Option<int> {
    ipv4_from(t, pos, 0)
}

/// The end of an IPv4 address standing as IPv6 group `i` (after its colon).
pub open spec fn group_ipv4(t: Seq<char>, pos: int, i: nat) -> Option<int> {
    match after_separator(t, pos, i, ':') {
        None => None,
        Some(p) => read_ipv4(t, p),
    }
}

/// The end of IPv6 group `i`: one to four hexadecimal digits (after its colon).
pub open spec fn group_hex(t: Seq<char>, pos: int, i: nat) -> Option<int> {
    match after_separator(t, pos, i, ':') {
        None => None,
        Some(p) => number_end(t, p, 16, 4, 65535, true),
    }
}

/// IPv6 groups `i..limit` read from `pos`: how many were read, whether the
/// last two were an IPv4 address, and where reading stopped.
pub open spec fn read_groups(t: Seq<char>, pos: int, i: nat, limit: nat) -> (nat, bool, int)
    decreases limit - i,
{
    if i >= limit {
        (limit, false, pos)
    } else if i + 1 < limit && group_ipv4(t, pos, i) is Some {
        (i + 2, true, group_ipv4(t, pos, i).unwrap())
    } else {
        match group_hex(t, pos, i) {
            None => (i, false, pos),
            Some(e) => read_groups(t, e, i + 1, limit),
        }
    }
}

/// The end of an IPv6 address read from `pos`: eight groups, or fewer with
/// one `::` standing for at least one group of zeros.
pub open spec fn read_ipv6(t: Seq<char>, pos: int) -> Option<int> {
    let (head, head_ipv4, p) = read_groups(t, pos, 0, 8);
    if head == 8 {
        Some(p)
    } else if head_ipv4 {
        None
    } else if char_at(t, p, ':') && char_at(t, p + 1, ':') {
        Some(read_groups(t, p + 2, 0, (7 - head) as nat).2)
    } else {
        None
    }
}

/// The end of a port `:n` read from `pos` (a decimal number up to 65535).
pub open spec fn read_port(t: Seq<char>, pos: int) -> Option<int> {
    if char_at(t, pos, ':') {
        number_end(t, pos + 1, 10, t.len(), 65535, true)
    } else {
        None
    }
}

/// The end of an IPv4 socket address read from the start.
pub open spec fn socket_v4_end(t: Seq<char>) -> Option<int> {
    match read_ipv4(t, 0) {
        None => None,
        Some(p) => read_port(t, p),
    }
}

/// The position after an optional zone index `%n` at `pos`.
pub open spec fn after_scope(t: Seq<char>, pos: int) -> int {
    if char_at(t, pos, '%') && number_end(t, pos + 1, 10, t.len(), 4294967295, true) is Some {
        number_end(t, pos + 1, 10, t.len(), 4294967295, true).unwrap()
    } else {
        pos
    }
}

/// The end of a bracketed IPv6 socket address read from the start.
pub open spec fn socket_v6_end(t: Seq<char>) -> Option<int> {
    if !char_at(t, 0, '[') {
        None
    } else {
        match read_ipv6(t, 1) {
            None => None,
            Some(p) => {
                let q = after_scope(t, p);
                if char_at(t, q, ']') {
                    read_port(t, q + 1)
                } else {
                    None
                }
            },
        }
    }
}

/// The text is a socket address: read as an IPv4 socket address if one
/// stands at its start, else as an IPv6 one, it is read to its end.
pub open spec fn socket_addr_text(t: Seq<char>) -> bool {
    match socket_v4_end(t) {
        Some(e) => e == t.len(),
        None => socket_v6_end(t) == Some(t.len() as int),
    }
}

// ---------------------------------------------------------------------------
// Facts about numbers.
// ---------------------------------------------------------------------------

/// With `k` digits in a row from `pos`, the run has at least `k` digits,
/// and exactly `k` when none follows.
proof fn lemma_digit_run(t: Seq<char>, pos: int, k: nat, radix: nat)
    requires
        0 <= pos,
        pos + k <= t.len(),
        forall|j: int| pos <= j < pos + k ==> digit_value(#[trigger] t[j], radix) is Some,
    ensures
        digit_run(t, pos, radix) >= k,
        (pos + k == t.len() || digit_value(t[pos + k], radix) is None) ==> digit_run(t, pos, radix) == k,
    decreases k,
{
    if k > 0 {
        lemma_digit_run(t, pos + 1, (k - 1) as nat, radix);
    }
}

/// More digits never make a smaller value.
proof fn lemma_digits_value_grows(t: Seq<char>, pos: int, k: nat, m: nat, radix: nat)
    requires
        k <= m,
        radix >= 1,
    ensures
        digits_value(t, pos, k, radix) <= digits_value(t, pos, m, radix),
    decreases m - k,
{
    if k < m {
        lemma_digits_value_grows(t, pos, k, (m - 1) as nat, radix);
        let v = digits_value(t, pos, (m - 1) as nat, radix);
        assert(v * radix >= v) by (nonlinear_arith)
            requires
                radix >= 1,
        ;
    }
}

fn digit_of(c: char, radix: u64) -> (res: Option<u64>)
    requires
        radix == 10 || radix == 16,
    ensures
        match res {
            Some(d) => digit_value(c, radix as nat) == Some(d as nat) && d < radix,
            None => digit_value(c, radix as nat) is None,
        },
{
    let n = c as u32;
    if '0' <= c && c <= '9' {
        Some((n - 48) as u64)
    } else if radix == 16 && 'a' <= c && c <= 'f' {
        Some((n - 87) as u64)
    } else if radix == 16 && 'A' <= c && c <= 'F' {
        Some((n - 55) as u64)
    } else {
        None
    }
}

/// Reads a number from `pos` in `s` (of `len` characters), as `read_number` says.
fn number_at(s: &str, len: usize, pos: usize, radix: u64, max_digits: usize, max_value: u64, zero_prefix: bool) -> (res: Option<usize>)
    requires
        len == s@.len(),
        pos <= len,
        radix == 10 || radix == 16,
        max_value <= 4294967295,
    ensures
        match res {
            Some(e) => number_end(s@, pos as int, radix as nat, max_digits as nat, max_value as nat, zero_prefix)
                == Some(e as int) && e <= len,
            None => number_end(s@, pos as int, radix as nat, max_digits as nat, max_value as nat, zero_prefix) is None,
        },
{
    let ghost t = s@;
    let ghost r = radix as nat;
    let mut value: u64 = 0;
    let mut count: usize = 0;
    let mut p: usize = pos;
    let mut more = true;
    while more && p < len
        invariant
            len == t.len(),
            t == s@,
            r == radix as nat,
            radix == 10 || radix == 16,
            max_value <= 4294967295,
            p == pos + count,
            p <= len,
            count <= max_digits,
            value as nat == digits_value(t, pos as int, count as nat, r),
            value <= max_value,
            forall|j: int| pos <= j < p ==> digit_value(#[trigger] t[j], r) is Some,
            !more ==> p < len && digit_value(t[p as int], r) is None,
        decreases (len - p) as int + (if more { 1int } else { 0int }),
    {
        match digit_of(s.get_char(p), radix) {
            None => {
                more = false;
            },
            Some(d) => {
                let next = value * radix + d;
                proof {
                    lemma_digit_run(t, pos as int, (count + 1) as nat, r);
                    assert(digits_value(t, pos as int, (count + 1) as nat, r) == next as nat);
                }
                if next > max_value {
                    proof {
                        lemma_digits_value_grows(t, pos as int, (count + 1) as nat, digit_run(t, pos as int, r), r);
                    }
                    return None;
                }
                if count + 1 > max_digits {
                    return None;
                }
                value = next;
                count = count + 1;
                p = p + 1;
            },
        }
    }
    proof {
        lemma_digit_run(t, pos as int, count as nat, r);
    }
    if count == 0 {
        return None;
    }
    if !zero_prefix && count > 1 && s.get_char(pos) == '0' {
        return None;
    }
    Some(p)
}

/// Reads the IPv4 address at `pos`, as `read_ipv4` says.
fn ipv4_at(s: &str, len: usize, pos: usize) -> (res: Option<usize>)
    requires
        len == s@.len(),
        pos <= len,
    ensures
        match res {
            Some(e) => read_ipv4(s@, pos as int) == Some(e as int) && e <= len,
            None => read_ipv4(s@, pos as int) is None,
        },
{
    let mut p = pos;
    let mut i: usize = 0;
    while i < 4
        invariant
            len == s@.len(),
            p <= len,
            i <= 4,
            ipv4_from(s@, pos as int, 0) == ipv4_from(s@, p as int, i as nat),
        decreases 4 - i,
    {
        if i > 0 {
            if p < len && s.get_char(p) == '.' {
                p = p + 1;
            } else {
                return None;
            }
        }
        match number_at(s, len, p, 10, 3, 255, false) {
            None => {
                return None;
            },
            Some(e) => {
                p = e;
            },
        }
        i = i + 1;
    }
    Some(p)
}

/// Reads IPv6 group `i` at `pos`, as an IPv4 address when `as_ipv4`, else
/// as hexadecimal digits.
fn group_at(s: &str, len: usize, pos: usize, i: usize, as_ipv4: bool) -> (res: Option<usize>)
    requires
        len == s@.len(),
        pos <= len,
    ensures
        match res {
            Some(e) => e <= len && Some(e as int) == if as_ipv4 {
                group_ipv4(s@, pos as int, i as nat)
            } else {
                group_hex(s@, pos as int, i as nat)
            },
            None => if as_ipv4 {
                group_ipv4(s@, pos as int, i as nat) is None
            } else {
                group_hex(s@, pos as int, i as nat) is None
            },
        },
{
    let mut p = pos;
    if i > 0 {
        if p < len && s.get_char(p) == ':' {
            p = p + 1;
        } else {
            return None;
        }
    }
    if as_ipv4 {
        ipv4_at(s, len, p)
    } else {
        number_at(s, len, p, 16, 4, 65535, true)
    }
}

/// Reads IPv6 groups `0..limit` at `pos`, as `read_groups` says.
fn groups_at(s: &str, len: usize, pos: usize, limit: usize) -> (res: (usize, bool, usize))
    requires
        len == s@.len(),
        pos <= len,
        limit <= 8,
    ensures
        read_groups(s@, pos as int, 0, limit as nat) == (res.0 as nat, res.1, res.2 as int),
        res.2 <= len,
        res.0 <= limit,
{
    let mut p = pos;
    let mut i: usize = 0;
    while i < limit
        invariant
            len == s@.len(),
            p <= len,
            i <= limit,
            limit <= 8,
            read_groups(s@, pos as int, 0, limit as nat) == read_groups(s@, p as int, i as nat, limit as nat),
        decreases limit - i,
    {
        if i + 1 < limit {
            match group_at(s, len, p, i, true) {
                Some(e) => {
                    return (i + 2, true, e);
                },
                None => {},
            }
        }
        match group_at(s, len, p, i, false) {
            None => {
                return (i, false, p);
            },
            Some(e) => {
                p = e;
            },
        }
        i = i + 1;
    }
    (limit, false, p)
}

/// Reads the IPv6 address at `pos`, as `read_ipv6` says.
fn ipv6_at(s: &str, len: usize, pos: usize) -> (res: Option<usize>)
    requires
        len == s@.len(),
        pos <= len,
    ensures
        match res {
            Some(e) => read_ipv6(s@, pos as int) == Some(e as int) && e <= len,
            None => read_ipv6(s@, pos as int) is None,
        },
{
    let (head, head_ipv4, p) = groups_at(s, len, pos, 8);
    if head == 8 {
        return Some(p);
    }
    if head_ipv4 {
        return None;
    }
    if p < len && len - p > 1 && s.get_char(p) == ':' && s.get_char(p + 1) == ':' {
        let (_, _, q) = groups_at(s, len, p + 2, 7 - head);
        Some(q)
    } else {
        None
    }
}

/// Reads the port at `pos`, as `read_port` says.
fn port_at(s: &str, len: usize, pos: usize) -> (res: Option<usize>)
    requires
        len == s@.len(),
        pos <= len,
    ensures
        match res {
            Some(e) => read_port(s@, pos as int) == Some(e as int) && e <= len,
            None => read_port(s@, pos as int) is None,
        },
{
    if pos < len && s.get_char(pos) == ':' {
        number_at(s, len, pos + 1, 10, len, 65535, true)
    } else {
        None
    }
}

/// Whether a text is a socket address (see `socket_addr_text`): an IPv4
/// address and a port, or a bracketed IPv6 address, an optional zone index
/// and a port, as `str::parse::<SocketAddr>` accepts them.
pub fn is_socket_addr(s: &str) -> (res: bool)
    ensures
        res == socket_addr_text(s@),
{
    let len = s.unicode_len();
    let v4 = match ipv4_at(s, len, 0) {
        Some(p) => port_at(s, len, p),
        None => None,
    };
    match v4 {
        Some(e) => {
            return e == len;
        },
        None => {},
    }
    if !(0 < len && s.get_char(0) == '[') {
        return false;
    }
    let p = match ipv6_at(s, len, 1) {
        None => {
            return false;
        },
        Some(p) => p,
    };
    let mut q = p;
    if p < len && s.get_char(p) == '%' {
        match number_at(s, len, p + 1, 10, len, 4294967295, true) {
            Some(e) => {
                q = e;
            },
            None => {},
        }
    }
    if q < len && s.get_char(q) == ']' {
        match port_at(s, len, q + 1) {
            Some(e) => e == len,
            None => false,
        }
    } else {
        false
    }
}

} // verus!
