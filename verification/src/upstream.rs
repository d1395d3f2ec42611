//! Address of the upstream RPC endpoint.
//!
//! The poller's transport speaks plain HTTP to one endpoint given as a
//! URL. Splitting that URL into host, port and request path is pure
//! parsing and is verified here; the socket work stays outside.

use vstd::prelude::*;

verus! {

/// Where the upstream RPC endpoint listens.
pub struct UpstreamEndpoint {
    /// Host name or address, as written in the URL.
    pub host: String,
    /// TCP port; `80` when the URL names none.
    pub port: u16,
    /// Request path; `/` when the URL names none.
    pub path: String,
}

/// Index of the first occurrence of `c` in `s`, if any.
pub open spec fn first_index(s: Seq<char>, c: char) -> Option<int>
    decreases s.len(),
{
    if s.len() == 0 {
        None
    } else if s[0] == c {
        Some(0int)
    } else {
        match first_index(s.drop_first(), c) {
            Some(i) => Some(i + 1),
            None => None,
        }
    }
}

/// Index of the last occurrence of `c` in `s`, if any.
pub open spec fn last_index(s: Seq<char>, c: char) -> Option<int>
    decreases s.len(),
{
    if s.len() == 0 {
        None
    } else if s.last() == c {
        Some(s.len() - 1)
    } else {
        last_index(s.drop_last(), c)
    }
}

/// A decimal digit; `48` and `57` are the code points of `0` and `9`.
pub open spec fn is_digit(c: char) -> bool {
    48 <= c as u32 <= 57
}

/// Numeric value of a digit string, most significant digit first
/// (meaningful under `all_digits`).
pub open spec fn decimal_val(s: Seq<char>) -> int
    decreases s.len(),
{
    if s.len() == 0 {
        0
    } else {
        decimal_val(s.drop_last()) * 10 + (s.last() as u32 - 48)
    }
}

/// A non-empty string of decimal digits.
pub open spec fn all_digits(s: Seq<char>) -> bool {
    s.len() > 0 && forall|i: int| 0 <= i < s.len() ==> is_digit(s[i])
}

/// The port a digit string names: its value, when it is all digits and
/// fits a `u16`.
pub open spec fn spec_port(s: Seq<char>) -> Option<u16> {
    if all_digits(s) && decimal_val(s) <= 65535 {
        Some(decimal_val(s) as u16)
    } else {
        None
    }
}

/// How a plain-http URL splits into host, port and path: the authority
/// runs to the first slash after the scheme; a trailing `:digits` names
/// the port, else it is `80`; the path is what follows the authority,
/// else `/`. A URL without the plain-http scheme, or with an unusable
/// port, does not split.
pub open spec fn spec_endpoint(url: Seq<char>) -> Option<(Seq<char>, u16, Seq<char>)> {
    if url.len() < 7 || url.subrange(0, 7) != "http://"@ {
        None
    } else {
        let rest = url.subrange(7, url.len() as int);
        let cut = match first_index(rest, '/') {
            Some(i) => i,
            None => rest.len() as int,
        };
        let authority = rest.subrange(0, cut);
        let path = if cut < rest.len() {
            rest.subrange(cut, rest.len() as int)
        } else {
            "/"@
        };
        match last_index(authority, ':') {
            Some(j) => match spec_port(authority.subrange(j + 1, authority.len() as int)) {
                Some(p) => Some((authority.subrange(0, j), p, path)),
                None => None,
            },
            None => Some((authority, 80u16, path)),
        }
    }
}

proof fn lemma_first_index_is(s: Seq<char>, c: char, i: int)
    requires
        0 <= i < s.len(),
        s[i] == c,
        forall|j: int| 0 <= j < i ==> s[j] != c,
    ensures
        first_index(s, c) == Some(i),
    decreases s.len(),
{
    if s[0] != c {
        lemma_first_index_is(s.drop_first(), c, i - 1);
    }
}

proof fn lemma_first_index_none(s: Seq<char>, c: char)
    requires
        forall|j: int| 0 <= j < s.len() ==> s[j] != c,
    ensures
        first_index(s, c) is None,
    decreases s.len(),
{
    if s.len() > 0 {
        lemma_first_index_none(s.drop_first(), c);
    }
}

proof fn lemma_last_index_is(s: Seq<char>, c: char, i: int)
    requires
        0 <= i < s.len(),
        s[i] == c,
        forall|j: int| i < j < s.len() ==> s[j] != c,
    ensures
        last_index(s, c) == Some(i),
    decreases s.len(),
{
    if s.last() != c {
        lemma_last_index_is(s.drop_last(), c, i);
    }
}

proof fn lemma_last_index_none(s: Seq<char>, c: char)
    requires
        forall|j: int| 0 <= j < s.len() ==> s[j] != c,
    ensures
        last_index(s, c) is None,
    decreases s.len(),
{
    if s.len() > 0 {
        lemma_last_index_none(s.drop_last(), c);
    }
}

proof fn lemma_decimal_val_nonneg(s: Seq<char>)
    requires
        forall|i: int| 0 <= i < s.len() ==> is_digit(s[i]),
    ensures
        decimal_val(s) >= 0,
    decreases s.len(),
{
    if s.len() > 0 {
        lemma_decimal_val_nonneg(s.drop_last());
    }
}

/// Appending digits never shrinks the value a prefix already names.
proof fn lemma_decimal_val_grows(s: Seq<char>, i: int)
    requires
        0 <= i <= s.len(),
        forall|j: int| 0 <= j < s.len() ==> is_digit(s[j]),
    ensures
        decimal_val(s) >= decimal_val(s.subrange(0, i)),
    decreases s.len() - i,
{
    if i == s.len() {
        assert(s.subrange(0, i) =~= s);
    } else {
        let shorter = s.subrange(0, i);
        let longer = s.subrange(0, i + 1);
        assert(longer.drop_last() =~= shorter);
        assert(forall|j: int| 0 <= j < shorter.len() ==> is_digit(shorter[j]));
        lemma_decimal_val_nonneg(shorter);
        assert(decimal_val(longer) >= decimal_val(shorter));
        lemma_decimal_val_grows(s, i + 1);
    }
}

/// Index of the first occurrence of `c` in `s`, if any.
fn find_first(s: &str, c: char) -> (r: Option<usize>)
    ensures
        match r {
            Some(i) => first_index(s@, c) == Some(i as int) && i < s@.len(),
            None => first_index(s@, c) is None,
        },
{
    let n: usize = s.unicode_len();
    let mut i: usize = 0;
    while i < n
        invariant
            n == s@.len(),
            i <= n,
            forall|j: int| 0 <= j < i ==> s@[j] != c,
        decreases n - i,
    {
        if s.get_char(i) == c {
            proof {
                lemma_first_index_is(s@, c, i as int);
            }
            return Some(i);
        }
        i += 1;
    }
    proof {
        lemma_first_index_none(s@, c);
    }
    None
}

/// Index of the last occurrence of `c` in `s`, if any.
fn find_last(s: &str, c: char) -> (r: Option<usize>)
    ensures
        match r {
            Some(i) => last_index(s@, c) == Some(i as int) && i < s@.len(),
            None => last_index(s@, c) is None,
        },
{
    let n: usize = s.unicode_len();
    let mut i: usize = n;
    while i > 0
        invariant
            n == s@.len(),
            i <= n,
            forall|j: int| i <= j < n ==> s@[j] != c,
        decreases i,
    {
        i -= 1;
        if s.get_char(i) == c {
            proof {
                lemma_last_index_is(s@, c, i as int);
            }
            return Some(i);
        }
    }
    proof {
        lemma_last_index_none(s@, c);
    }
    None
}

/// Read a digit string as a port number.
fn parse_port(s: &str) -> (r: Option<u16>)
    ensures
        r == spec_port(s@),
{
    let n: usize = s.unicode_len();
    if n == 0 {
        return None;
    }
    let mut acc: u32 = 0;
    let mut i: usize = 0;
    while i < n
        invariant
            n == s@.len(),
            i <= n,
            forall|j: int| 0 <= j < i ==> is_digit(s@[j]),
            acc == decimal_val(s@.subrange(0, i as int)),
            acc <= 65535,
        decreases n - i,
    {
        let cu: u32 = s.get_char(i) as u32;
        if !(48 <= cu && cu <= 57) {
            return None;
        }
        let d: u32 = cu - 48;
        acc = acc * 10 + d;
        i += 1;
        proof {
            assert(s@.subrange(0, i as int).drop_last() =~= s@.subrange(0, i - 1));
        }
        if acc > 65535 {
            proof {
                if all_digits(s@) {
                    lemma_decimal_val_grows(s@, i as int);
                }
            }
            return None;
        }
    }
    proof {
        assert(s@.subrange(0, n as int) =~= s@);
    }
    Some(acc as u16)
}

/// Split a plain-http URL into the endpoint it names. Answers nothing
/// for a URL of another scheme or with an unusable port.
pub fn parse_endpoint(url: &str) -> (r: Option<UpstreamEndpoint>)
    ensures
        match spec_endpoint(url@) {
            Some(t) => r matches Some(e) && e.host@ == t.0 && e.port == t.1 && e.path@ == t.2,
            None => r is None,
        },
{
    proof {
        reveal_strlit("http://");
        reveal_strlit("/");
    }
    let n: usize = url.unicode_len();
    if n < 7 {
        return None;
    }
    let prefix = url.substring_char(0, 7);
    if !(prefix.to_owned() == "http://".to_owned()) {
        return None;
    }
    let rest = url.substring_char(7, n);
    let rest_len: usize = n - 7;
    let cut: usize = match find_first(rest, '/') {
        Some(i) => i,
        None => rest_len,
    };
    let authority = rest.substring_char(0, cut);
    let path: String = if cut < rest_len {
        rest.substring_char(cut, rest_len).to_owned()
    } else {
        "/".to_owned()
    };
    match find_last(authority, ':') {
        Some(j) => {
            let port_str = authority.substring_char(j + 1, cut);
            match parse_port(port_str) {
                Some(p) => {
                    let host = authority.substring_char(0, j).to_owned();
                    Some(UpstreamEndpoint { host, port: p, path })
                },
                None => None,
            }
        },
        None => Some(UpstreamEndpoint { host: authority.to_owned(), port: 80, path }),
    }
}

} // verus!
