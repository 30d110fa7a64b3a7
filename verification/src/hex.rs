//! Bytes written as pairs of hexadecimal digits, as message dumps come in.

use vstd::prelude::*;
use vstd::string::is_ascii_spec_bytes;
use vstd::utf8::is_ascii_chars;

verus! {

/// The value of a hexadecimal digit, in either case; `None` for any other
/// character.
pub open spec fn hex_value(c: char) -> Option<u8> {
    let n = c as u32;
    if 48 <= n <= 57 {
        Some((n - 48) as u8)
    } else if 97 <= n <= 102 {
        Some((n - 87) as u8)
    } else if 65 <= n <= 70 {
        Some((n - 55) as u8)
    } else {
        None
    }
}

/// The byte that one or two characters stand for. A lone digit is its own
/// value, and so is a digit behind a plus sign; two digits are read with the
/// first as the high half.
pub open spec fn chunk_value(chunk: Seq<char>) -> Option<u8> {
    if chunk.len() == 1 {
        hex_value(chunk[0])
    } else if chunk.len() == 2 {
        if chunk[0] == '+' {
            hex_value(chunk[1])
        } else {
            match (hex_value(chunk[0]), hex_value(chunk[1])) {
                (Some(high), Some(low)) => Some((high * 16 + low) as u8),
                _ => None,
            }
        }
    } else {
        None
    }
}

/// The bytes that a dump stands for: it is read two characters at a time,
/// and a last character that is left over is read alone. `None` where some
/// part of it stands for no byte.
pub open spec fn hex_bytes(s: Seq<char>) -> Option<Seq<u8>>
    decreases s.len(),
{
    if s.len() == 0 {
        Some(Seq::empty())
    } else {
        let n: int = if s.len() >= 2 {
            2
        } else {
            1
        };
        match (chunk_value(s.take(n)), hex_bytes(s.skip(n))) {
            (Some(x), Some(rest)) => Some(seq![x] + rest),
            _ => None,
        }
    }
}

proof fn lemma_digit_is_ascii(c: char)
    requires
        hex_value(c) is Some || c == '+',
    ensures
        '\0' <= c <= '\u{7f}',
{
}

/// Only plain ASCII stands for bytes.
pub proof fn lemma_hex_is_ascii(s: Seq<char>)
    requires
        hex_bytes(s) is Some,
    ensures
        is_ascii_chars(s),
    decreases s.len(),
{
    if s.len() > 0 {
        let n: int = if s.len() >= 2 {
            2
        } else {
            1
        };
        lemma_hex_is_ascii(s.skip(n));
        let chunk = s.take(n);
        assert(chunk_value(chunk) is Some);
        assert forall|i: int| 0 <= i < s.len() implies '\0' <= #[trigger] s[i] <= '\u{7f}' by {
            if i < n {
                assert(chunk[i] == s[i]);
                assert(hex_value(chunk[i]) is Some || chunk[i] == '+');
                lemma_digit_is_ascii(chunk[i]);
            } else {
                assert(s.skip(n)[i - n] == s[i]);
            }
        }
    }
}

fn digit_value(b: u8) -> (r: Option<u8>)
    ensures
        r == hex_value(b as char),
{
    if b >= 48 && b <= 57 {
        Some(b - 48)
    } else if b >= 97 && b <= 102 {
        Some(b - 87)
    } else if b >= 65 && b <= 70 {
        Some(b - 55)
    } else {
        None
    }
}

/// Reads a dump: the bytes that `val` stands for, or `None` where it stands
/// for none.
pub fn parse_hex(val: &str) -> (r: Option<Vec<u8>>)
    ensures
        match r {
            Some(v) => hex_bytes(val@) == Some(v@),
            None => hex_bytes(val@) is None,
        },
{
    if !val.is_ascii() {
        proof {
            if hex_bytes(val@) is Some {
                lemma_hex_is_ascii(val@);
            }
        }
        return None;
    }
    let b = val.as_bytes();
    proof {
        is_ascii_spec_bytes(val);
    }
    let ghost s = val@;
    let mut out: Vec<u8> = Vec::new();
    let mut i: usize = 0;
    proof {
        assert(s.skip(0) =~= s);
        match hex_bytes(s) {
            Some(rest) => {
                assert(out@ + rest =~= rest);
            },
            None => {},
        }
    }
    while i < b.len()
        invariant
            i <= b.len(),
            s == val@,
            b@.len() == s.len(),
            is_ascii_chars(s),
            forall|j: int| 0 <= j < s.len() ==> b@[j] == s[j] as u8,
            hex_bytes(s) == match hex_bytes(s.skip(i as int)) {
                Some(rest) => Some(out@ + rest),
                None => None,
            },
        decreases b.len() - i,
    {
        let ghost tail = s.skip(i as int);
        let n: usize = if b.len() - i >= 2 {
            2
        } else {
            1
        };
        proof {
            assert(tail.len() == s.len() - i);
            assert(tail[0] == s[i as int]);
            assert(b@[i as int] as char == s[i as int]);
            assert(tail.skip(n as int) =~= s.skip(i + n));
            if n == 2 {
                assert(tail[1] == s[i + 1]);
                assert(b@[i + 1] as char == s[i + 1]);
            }
        }
        let x: Option<u8> = if n == 1 {
            digit_value(b[i])
        } else if b[i] == 43 {
            digit_value(b[i + 1])
        } else {
            match (digit_value(b[i]), digit_value(b[i + 1])) {
                (Some(high), Some(low)) => Some(high * 16 + low),
                _ => None,
            }
        };
        proof {
            assert(x == chunk_value(tail.take(n as int)));
            assert(hex_bytes(tail) == match (x, hex_bytes(tail.skip(n as int))) {
                (Some(x), Some(rest)) => Some(seq![x] + rest),
                _ => None,
            });
        }
        match x {
            Some(x) => {
                let ghost before = out@;
                out.push(x);
                proof {
                    match hex_bytes(s.skip(i + n)) {
                        Some(rest) => {
                            assert(before + (seq![x] + rest) =~= out@ + rest);
                        },
                        None => {},
                    }
                }
            },
            None => {
                return None;
            },
        }
        i = i + n;
    }
    proof {
        assert(s.skip(i as int) =~= Seq::<char>::empty());
        assert(out@ + Seq::<u8>::empty() =~= out@);
    }
    Some(out)
}

/// The bytes of a dump that is known to be well formed.
pub fn hex_str_to_bytes(val: &str) -> (r: Vec<u8>)
    requires
        hex_bytes(val@) is Some,
    ensures
        hex_bytes(val@) == Some(r@),
{
    match parse_hex(val) {
        Some(v) => v,
        None => Vec::new(),
    }
}

} // verus!
