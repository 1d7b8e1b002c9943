use vstd::prelude::*;
use vstd::string::StrSliceExecFns;

verus! {

/// An IPv4 address as its four octets, most significant first.
#[derive(Clone, Copy, Debug)]
pub struct Ipv4Address {
    pub octets: [u8; 4],
}

/// The text given for an IPv4 address is not a dotted quad.
#[derive(Clone, Copy, Debug, PartialEq, Eq, Structural)]
pub struct AddrParseError;

pub open spec fn is_digit(c: char) -> bool {
    '0' <= c && c <= '9'
}

pub open spec fn digit_value(c: char) -> int {
    (c as u32) as int - 48
}

/// The number written by one, two or three decimal digits.
pub open spec fn octet_value(t: Seq<char>) -> int {
    if t.len() == 1 {
        digit_value(t[0])
    } else if t.len() == 2 {
        10 * digit_value(t[0]) + digit_value(t[1])
    } else {
        100 * digit_value(t[0]) + 10 * digit_value(t[1]) + digit_value(t[2])
    }
}

/// `t` is the decimal text of the octet `n`: one to three digits, with no
/// leading zero unless the octet is the single digit `0`.
pub open spec fn is_octet_text(t: Seq<char>, n: u8) -> bool {
    &&& 1 <= t.len() <= 3
    &&& forall|i: int| 0 <= i < t.len() ==> is_digit(#[trigger] t[i])
    &&& t.len() > 1 ==> t[0] != '0'
    &&& octet_value(t) == n as int
}

/// `s` is the dotted-quad text of the address with the given octets: four
/// octet texts separated by single dots, and nothing else.
pub open spec fn is_ipv4_text(s: Seq<char>, octets: Seq<u8>) -> bool {
    &&& octets.len() == 4
    &&& exists|i: int, j: int, k: int|
        #![trigger s[i], s[j], s[k]]
        {
            &&& 0 <= i < j < k < s.len()
            &&& s[i] == '.' && s[j] == '.' && s[k] == '.'
            &&& is_octet_text(s.subrange(0, i), octets[0])
            &&& is_octet_text(s.subrange(i + 1, j), octets[1])
            &&& is_octet_text(s.subrange(j + 1, k), octets[2])
            &&& is_octet_text(s.subrange(k + 1, s.len() as int), octets[3])
        }
}

/// The characters of `s`, one by one.
pub fn chars_of(s: &str) -> (r: Vec<char>)
    ensures
        r@ == s@,
{
    let n = s.unicode_len();
    let mut r: Vec<char> = Vec::new();
    let mut i: usize = 0;
    while i < n
        invariant
            n == s@.len(),
            i <= n,
            r@ == s@.subrange(0, i as int),
        decreases n - i,
    {
        r.push(s.get_char(i));
        i = i + 1;
    }
    assert(r@ =~= s@);
    r
}

/// Reads the octet whose text starts at `start`: at most three digits, up to
/// the first character that is not one. Returns its value and the position
/// after its last digit.
fn read_octet(cs: &Vec<char>, start: usize) -> (r: Option<(u8, usize)>)
    requires
        start <= cs@.len(),
    ensures
        r matches Some((v, end)) ==> start < end <= cs@.len() && is_octet_text(
            cs@.subrange(start as int, end as int),
            v,
        ),
        forall|e: int, n: u8|
            start < e <= cs@.len() && #[trigger] is_octet_text(cs@.subrange(start as int, e), n)
                && (e == cs@.len() || cs@[e] == '.') ==> r == Some((n, e as usize)),
{
    let mut end: usize = start;
    let mut value: u32 = 0;
    while end < cs.len() && end - start < 3 && '0' <= cs[end] && cs[end] <= '9'
        invariant
            start <= end <= cs@.len(),
            end - start <= 3,
            forall|i: int| start <= i < end ==> is_digit(#[trigger] cs@[i]),
            end > start ==> value as int == octet_value(cs@.subrange(start as int, end as int)),
            end == start ==> value == 0,
        decreases cs@.len() - end,
    {
        let d = cs[end] as u32 - 48;
        proof {
            let t = cs@.subrange(start as int, end as int + 1);
            assert(t.len() >= 1);
            assert(t[t.len() - 1] == cs@[end as int]);
            if end > start {
                assert(t[0] == cs@[start as int]);
                if end - start == 2 {
                    assert(t[1] == cs@[start + 1]);
                }
            }
        }
        value = value * 10 + d;
        end = end + 1;
    }
    proof {
        assert forall|e: int, n: u8|
            start < e <= cs@.len() && #[trigger] is_octet_text(cs@.subrange(start as int, e), n)
                && (e == cs@.len() || cs@[e] == '.') implies e == end && value == n as u32 by {
            let t = cs@.subrange(start as int, e);
            assert forall|i: int| start <= i < e implies is_digit(cs@[i]) by {
                assert(t[i - start] == cs@[i]);
            }
            if e < end {
                assert(is_digit(cs@[e]));
            }
            if end < e {
                assert(is_digit(cs@[end as int]));
            }
            assert(cs@.subrange(start as int, end as int) =~= t);
        }
    }
    if end == start || value > 255 || (end - start > 1 && cs[start] == '0') {
        None
    } else {
        proof {
            let t = cs@.subrange(start as int, end as int);
            assert forall|i: int| 0 <= i < t.len() implies is_digit(#[trigger] t[i]) by {
                assert(t[i] == cs@[start + i]);
            }
            assert(t[0] == cs@[start as int]);
        }
        Some((value as u8, end))
    }
}

/// Parses the dotted-quad text of an IPv4 address.
pub fn parse_ipv4(s: &str) -> (r: Result<Ipv4Address, AddrParseError>)
    ensures
        r matches Ok(a) ==> is_ipv4_text(s@, a.octets@),
        r is Err <==> forall|o: Seq<u8>| !is_ipv4_text(s@, o),
{
    let cs = chars_of(s);
    let n = cs.len();
    let ghost sv = s@;
    let (a, i) = match read_octet(&cs, 0) {
        Some(x) => x,
        None => { return Err(AddrParseError); },
    };
    if i >= n || cs[i] != '.' {
        return Err(AddrParseError);
    }
    let (b, j) = match read_octet(&cs, i + 1) {
        Some(x) => x,
        None => { return Err(AddrParseError); },
    };
    if j >= n || cs[j] != '.' {
        return Err(AddrParseError);
    }
    let (c, k) = match read_octet(&cs, j + 1) {
        Some(x) => x,
        None => { return Err(AddrParseError); },
    };
    if k >= n || cs[k] != '.' {
        return Err(AddrParseError);
    }
    let (d, l) = match read_octet(&cs, k + 1) {
        Some(x) => x,
        None => { return Err(AddrParseError); },
    };
    if l != n {
        return Err(AddrParseError);
    }
    let r = Ipv4Address { octets: [a, b, c, d] };
    assert(r.octets@ =~= seq![a, b, c, d]);
    assert(is_ipv4_text(sv, r.octets@));
    Ok(r)
}


/// The text without its leading and trailing whitespace.
pub uninterp spec fn trimmed(s: Seq<char>) -> Seq<char>;

/// Relies on `str::trim`: the text with leading and trailing whitespace
/// removed, a function of the characters alone.
#[verifier::external_body]
pub(crate) fn trim(s: &str) -> (r: String)
    ensures
        r@ == trimmed(s@),
{
    s.trim().to_string()
}

/// The address that a host name resolved to, as text: the first of the
/// resolved addresses, trimmed, or `None` when there is none.
pub fn lookup(addresses: &Vec<String>) -> (r: Option<String>)
    ensures
        r is None <==> addresses@.len() == 0,
        r matches Some(a) ==> a@ == trimmed(addresses@[0]@),
{
    if addresses.len() == 0 {
        None
    } else {
        Some(trim(addresses[0].as_str()))
    }
}

} // verus!
