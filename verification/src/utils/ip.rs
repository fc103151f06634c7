use vstd::prelude::*;
use vstd::string::StrSliceExecFns;

use crate::consts::{LOCALHOST, UNKNOWN_HOST};

verus! {

/// `c` is a decimal digit.
pub open spec fn is_digit(c: char) -> bool {
    '0' <= c && c <= '9'
}

/// Every character of `s` with index in `[lo, hi)` is a decimal digit.
pub open spec fn all_digits(s: Seq<char>, lo: int, hi: int) -> bool {
    forall|i: int| lo <= i < hi ==> is_digit(#[trigger] s[i])
}

/// `p1`, `p2`, `p3` are the dots and `p4` the colon of a well-formed peer
/// address: four groups of one to three digits, then one to five digits.
pub open spec fn addr_decomposed(s: Seq<char>, p1: int, p2: int, p3: int, p4: int) -> bool {
    &&& 0 < p1 < p2 < p3 < p4 < s.len()
    &&& s[p1] == '.'
    &&& s[p2] == '.'
    &&& s[p3] == '.'
    &&& s[p4] == ':'
    &&& p1 <= 3
    &&& 1 <= p2 - p1 - 1 <= 3
    &&& 1 <= p3 - p2 - 1 <= 3
    &&& 1 <= p4 - p3 - 1 <= 3
    &&& 1 <= s.len() - p4 - 1 <= 5
    &&& all_digits(s, 0, p1)
    &&& all_digits(s, p1 + 1, p2)
    &&& all_digits(s, p2 + 1, p3)
    &&& all_digits(s, p3 + 1, p4)
    &&& all_digits(s, p4 + 1, s.len() as int)
}

/// `s` has the shape of a peer address reachable over the wire transport:
/// `d{1,3}.d{1,3}.d{1,3}.d{1,3}:d{1,5}` with `d` a decimal digit.
pub open spec fn addr_matches(s: Seq<char>) -> bool {
    exists|p1: int, p2: int, p3: int, p4: int| #[trigger] addr_decomposed(s, p1, p2, p3, p4)
}

/// Two ends of the same maximal digit run coincide: a position that closes
/// a digit run starting at `lo` is determined by `s` and `lo` alone.
proof fn lemma_run_end_unique(s: Seq<char>, lo: int, a: int, b: int)
    requires
        lo <= a <= s.len(),
        lo <= b < s.len(),
        all_digits(s, lo, a),
        a < s.len() ==> !is_digit(s[a]),
        all_digits(s, lo, b),
        !is_digit(s[b]),
    ensures
        a == b,
{
    if b < a {
        assert(is_digit(s[b]));
    } else if a < b {
        assert(is_digit(s[a]));
    }
}

/// First position at or after `start` whose character is not a digit, or
/// `n` when digits run to the end.
fn digit_run_end(s: &str, start: usize, n: usize) -> (r: usize)
    requires
        n == s@.len(),
        start <= n,
    ensures
        start <= r <= n,
        all_digits(s@, start as int, r as int),
        r < n ==> !is_digit(s@[r as int]),
    decreases n - start,
{
    let mut i = start;
    while i < n
        invariant
            start <= i <= n,
            n == s@.len(),
            all_digits(s@, start as int, i as int),
        decreases n - i,
    {
        let c = s.get_char(i);
        if !('0' <= c && c <= '9') {
            return i;
        }
        i += 1;
    }
    n
}

/// In a matching address, the first dot closes the first digit run: its
/// position is forced by the scan.
proof fn pin_first(s: Seq<char>, p1: int) -> (q: (int, int, int, int))
    requires
        addr_matches(s),
        0 <= p1 <= s.len(),
        all_digits(s, 0, p1),
        p1 < s.len() ==> !is_digit(s[p1]),
    ensures
        addr_decomposed(s, q.0, q.1, q.2, q.3),
        q.0 == p1,
{
    let (q1, q2, q3, q4) = choose|q1: int, q2: int, q3: int, q4: int|
        addr_decomposed(s, q1, q2, q3, q4);
    lemma_run_end_unique(s, 0, p1, q1);
    (q1, q2, q3, q4)
}

proof fn pin_second(s: Seq<char>, p1: int, p2: int) -> (q: (int, int, int, int))
    requires
        addr_matches(s),
        0 <= p1 < s.len(),
        all_digits(s, 0, p1),
        s[p1] == '.',
        p1 < p2 <= s.len(),
        all_digits(s, p1 + 1, p2),
        p2 < s.len() ==> !is_digit(s[p2]),
    ensures
        addr_decomposed(s, q.0, q.1, q.2, q.3),
        q.0 == p1,
        q.1 == p2,
{
    let q = pin_first(s, p1);
    lemma_run_end_unique(s, p1 + 1, p2, q.1);
    q
}

proof fn pin_third(s: Seq<char>, p1: int, p2: int, p3: int) -> (q: (int, int, int, int))
    requires
        addr_matches(s),
        0 <= p1 < p2 < s.len(),
        all_digits(s, 0, p1),
        s[p1] == '.',
        all_digits(s, p1 + 1, p2),
        s[p2] == '.',
        p2 < p3 <= s.len(),
        all_digits(s, p2 + 1, p3),
        p3 < s.len() ==> !is_digit(s[p3]),
    ensures
        addr_decomposed(s, q.0, q.1, q.2, q.3),
        q.0 == p1,
        q.1 == p2,
        q.2 == p3,
{
    let q = pin_second(s, p1, p2);
    lemma_run_end_unique(s, p2 + 1, p3, q.2);
    q
}

proof fn pin_fourth(s: Seq<char>, p1: int, p2: int, p3: int, p4: int) -> (q: (int, int, int, int))
    requires
        addr_matches(s),
        0 <= p1 < p2 < p3 < s.len(),
        all_digits(s, 0, p1),
        s[p1] == '.',
        all_digits(s, p1 + 1, p2),
        s[p2] == '.',
        all_digits(s, p2 + 1, p3),
        s[p3] == '.',
        p3 < p4 <= s.len(),
        all_digits(s, p3 + 1, p4),
        p4 < s.len() ==> !is_digit(s[p4]),
    ensures
        addr_decomposed(s, q.0, q.1, q.2, q.3),
        q.0 == p1,
        q.1 == p2,
        q.2 == p3,
        q.3 == p4,
{
    let q = pin_third(s, p1, p2, p3);
    lemma_run_end_unique(s, p3 + 1, p4, q.3);
    q
}

/// Decide whether `addr` has the shape of a reachable peer address.
pub fn check_addr(addr: &str) -> (r: bool)
    ensures
        r == addr_matches(addr@),
{
    let ghost s = addr@;
    let n = addr.unicode_len();

    let p1 = digit_run_end(addr, 0, n);
    if p1 < 1 || p1 > 3 || p1 >= n {
        proof {
            if addr_matches(s) {
                let q = pin_first(s, p1 as int);
            }
        }
        return false;
    }
    if addr.get_char(p1) != '.' {
        proof {
            if addr_matches(s) {
                let q = pin_first(s, p1 as int);
            }
        }
        return false;
    }

    let p2 = digit_run_end(addr, p1 + 1, n);
    if p2 - p1 - 1 < 1 || p2 - p1 - 1 > 3 || p2 >= n {
        proof {
            if addr_matches(s) {
                let q = pin_second(s, p1 as int, p2 as int);
            }
        }
        return false;
    }
    if addr.get_char(p2) != '.' {
        proof {
            if addr_matches(s) {
                let q = pin_second(s, p1 as int, p2 as int);
            }
        }
        return false;
    }

    let p3 = digit_run_end(addr, p2 + 1, n);
    if p3 - p2 - 1 < 1 || p3 - p2 - 1 > 3 || p3 >= n {
        proof {
            if addr_matches(s) {
                let q = pin_third(s, p1 as int, p2 as int, p3 as int);
            }
        }
        return false;
    }
    if addr.get_char(p3) != '.' {
        proof {
            if addr_matches(s) {
                let q = pin_third(s, p1 as int, p2 as int, p3 as int);
            }
        }
        return false;
    }

    let p4 = digit_run_end(addr, p3 + 1, n);
    if p4 - p3 - 1 < 1 || p4 - p3 - 1 > 3 || p4 >= n {
        proof {
            if addr_matches(s) {
                let q = pin_fourth(s, p1 as int, p2 as int, p3 as int, p4 as int);
            }
        }
        return false;
    }
    if addr.get_char(p4) != ':' {
        proof {
            if addr_matches(s) {
                let q = pin_fourth(s, p1 as int, p2 as int, p3 as int, p4 as int);
            }
        }
        return false;
    }

    let p5 = digit_run_end(addr, p4 + 1, n);
    if p5 < n || n - p4 - 1 < 1 || n - p4 - 1 > 5 {
        proof {
            if addr_matches(s) {
                let q = pin_fourth(s, p1 as int, p2 as int, p3 as int, p4 as int);
                if p5 < n {
                    assert(is_digit(s[p5 as int]));
                }
            }
        }
        return false;
    }

    proof {
        assert(addr_decomposed(s, p1 as int, p2 as int, p3 as int, p4 as int));
    }
    true
}

/// Relies on `local_ip_address::local_ip`: the IPv4 address of a non-loopback
/// local interface, or an error when none is found.  The outcome depends on
/// the machine, so nothing is assumed of it.
#[verifier::external_body]
fn query_local_ip() -> (r: Option<String>) {
    match local_ip_address::local_ip() {
        Ok(ip) => Some(ip.to_string()),
        Err(_) => None,
    }
}

/// The address to report for this node given an interface probe: the probed
/// address when one was found, else the loopback address.
pub fn address_or_loopback(probe: Option<String>) -> (r: String)
    ensures
        match probe {
            Some(ip) => r == ip,
            None => r@ == LOCALHOST@,
        },
{
    match probe {
        Some(ip) => ip,
        None => LOCALHOST.to_owned(),
    }
}

/// The origin address to advertise in records handed to a peer: the probed
/// address when one was found, else the unknown-host placeholder.
pub fn address_or_unknown(probe: Option<String>) -> (r: String)
    ensures
        match probe {
            Some(ip) => r == ip,
            None => r@ == UNKNOWN_HOST@,
        },
{
    match probe {
        Some(ip) => ip,
        None => UNKNOWN_HOST.to_owned(),
    }
}

/// This node's address on the local network, falling back to the loopback
/// address when no interface reports one.
pub fn local_ip() -> String {
    address_or_loopback(query_local_ip())
}

/// This node's address as advertised to peers in backfilled records,
/// falling back to the unknown-host placeholder.
pub fn advertised_local_addr() -> String {
    address_or_unknown(query_local_ip())
}

} // verus!
