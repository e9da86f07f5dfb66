//! The settings the worker starts with: where the host is and who this worker is.
use crate::text::{decimal, decimal_string};
use vstd::prelude::*;
use vstd::string::*;

verus! {

pub open spec fn is_digit(c: char) -> bool {
    '0' <= c && c <= '9'
}

pub open spec fn all_digits(s: Seq<char>) -> bool {
    forall|i: int| 0 <= i < s.len() ==> is_digit(#[trigger] s[i])
}

/// The number that the decimal digits `s` spell.
pub open spec fn digits_value(s: Seq<char>) -> nat
    decreases s.len(),
{
    if s.len() == 0 {
        0
    } else {
        digits_value(s.drop_last()) * 10 + (s.last() as nat - '0' as nat) as nat
    }
}

/// The digits of a port number, after an optional leading `+`.
pub open spec fn port_digits(s: Seq<char>) -> Seq<char> {
    if s.len() > 0 && s[0] == '+' {
        s.drop_first()
    } else {
        s
    }
}

/// The port that `s` spells in decimal, if it spells one that fits in 16 bits.
pub open spec fn port_of(s: Seq<char>) -> Option<u16> {
    let d = port_digits(s);
    if d.len() > 0 && all_digits(d) && digits_value(d) <= 65535 {
        Some(digits_value(d) as u16)
    } else {
        None
    }
}

proof fn lemma_digits_value_grows(d: Seq<char>, i: int, j: int)
    requires
        0 <= i <= j <= d.len(),
        all_digits(d),
    ensures
        digits_value(d.take(i)) <= digits_value(d.take(j)),
    decreases j - i,
{
    if i < j {
        lemma_digits_value_grows(d, i, j - 1);
        assert(d.take(j).drop_last() =~= d.take(j - 1));
        assert(is_digit(d[j - 1]));
    }
}

/// Reads a port number written in decimal, as the standard library's
/// parser for `u16` does.
pub fn parse_port(s: &str) -> (r: Option<u16>)
    ensures
        r == port_of(s@),
{
    let n = s.unicode_len();
    let mut start: usize = 0;
    if n > 0 && s.get_char(0) == '+' {
        start = 1;
    }
    let ghost d = port_digits(s@);
    assert(d =~= s@.subrange(start as int, n as int));
    if start == n {
        return None;
    }
    let mut value: u32 = 0;
    let mut i: usize = start;
    while i < n
        invariant
            start <= i <= n,
            n == s@.len(),
            d == port_digits(s@),
            d =~= s@.subrange(start as int, n as int),
            all_digits(d.take(i - start)),
            value as nat == digits_value(d.take(i - start)),
            value <= 65535,
        decreases n - i,
    {
        let c = s.get_char(i);
        let k = i - start;
        assert(d.take(k + 1).drop_last() =~= d.take(k as int));
        assert(d[k as int] == c);
        if c < '0' || c > '9' {
            assert(!is_digit(d[k as int]));
            assert(!all_digits(d));
            return None;
        }
        let next = value * 10 + (c as u32 - '0' as u32);
        assert(d.take(k + 1).last() == c);
        assert(digits_value(d.take(k + 1)) == next as nat);
        assert forall|j: int| 0 <= j < k + 1 implies is_digit(#[trigger] d.take(k + 1)[j]) by {
            if j < k {
                assert(d.take(k + 1)[j] == d.take(k as int)[j]);
            }
        }
        if next > 65535 {
            proof {
                if all_digits(d) {
                    lemma_digits_value_grows(d, k + 1, d.len() as int);
                    assert(d.take(d.len() as int) =~= d);
                }
            }
            return None;
        }
        value = next;
        i = i + 1;
    }
    assert(d.take(n - start) =~= d);
    Some(value as u16)
}

/// Why the worker's settings could not be taken.
#[derive(Clone, Copy, Debug, PartialEq, Eq, Structural)]
pub enum RunError {
    MissingHost,
    MissingPort,
    InvalidPort,
    MissingWorkerId,
}

impl RunError {
    /// The diagnostic for this error.
    pub fn message(&self) -> (r: String)
        ensures
            r@ == match *self {
                RunError::MissingHost => "A host is required."@,
                RunError::MissingPort => "A port number is required."@,
                RunError::InvalidPort => "Invalid port number"@,
                RunError::MissingWorkerId => "A worker id is required."@,
            },
    {
        match self {
            RunError::MissingHost => String::from_str("A host is required."),
            RunError::MissingPort => String::from_str("A port number is required."),
            RunError::InvalidPort => String::from_str("Invalid port number"),
            RunError::MissingWorkerId => String::from_str("A worker id is required."),
        }
    }
}

/// Where the host listens, and the id this worker registers with.
pub struct Run<'a> {
    pub host: &'a str,
    pub port: u16,
    pub worker_id: &'a str,
}

impl<'a> Run<'a> {
    /// The settings from the command line's values: each is required, and the
    /// port must be a decimal number that fits in 16 bits.
    pub fn from_values(host: Option<&'a str>, port: Option<&str>, worker_id: Option<&'a str>) -> (r:
        Result<Run<'a>, RunError>)
        ensures
            r == match host {
                None => Err(RunError::MissingHost),
                Some(h) => match port {
                    None => Err(RunError::MissingPort),
                    Some(p) => match port_of(p@) {
                        None => Err(RunError::InvalidPort),
                        Some(n) => match worker_id {
                            None => Err(RunError::MissingWorkerId),
                            Some(w) => Ok((Run { host: h, port: n, worker_id: w })),
                        },
                    },
                },
            },
    {
        let host = match host {
            Some(h) => h,
            None => return Err(RunError::MissingHost),
        };
        let port = match port {
            Some(p) => match parse_port(p) {
                Some(n) => n,
                None => return Err(RunError::InvalidPort),
            },
            None => return Err(RunError::MissingPort),
        };
        let worker_id = match worker_id {
            Some(w) => w,
            None => return Err(RunError::MissingWorkerId),
        };
        Ok(Run { host, port, worker_id })
    }

    /// `host:port`, the address the channel connects to.
    pub fn address(&self) -> (r: String)
        ensures
            r@ == self.host@ + ":"@ + decimal(self.port as nat),
    {
        let mut r = String::from_str(self.host);
        r.append(":");
        let port = decimal_string(self.port as u32);
        r.append(port.as_str());
        r
    }
}

} // verus!
