//! Numbers that the service writes as text.
use vstd::prelude::*;
use vstd::string::is_ascii_spec_bytes;

verus! {

/// Whether a character is a decimal digit.
pub open spec fn is_digit(c: char) -> bool {
    '0' <= c <= '9'
}

/// Whether every character is a decimal digit.
pub open spec fn all_digits(cs: Seq<char>) -> bool {
    forall|i: int| 0 <= i < cs.len() ==> is_digit(#[trigger] cs[i])
}

/// The number that decimal digits write, most significant first.
pub open spec fn digits_value(cs: Seq<char>) -> int
    decreases cs.len(),
{
    if cs.len() == 0 {
        0
    } else {
        digits_value(cs.drop_last()) * 10 + (cs.last() as int - '0' as int)
    }
}

/// The text without its sign, where it starts with `+` or `-`.
pub open spec fn unsigned_part(cs: Seq<char>) -> Seq<char> {
    if cs.len() > 0 && (cs[0] == '-' || cs[0] == '+') {
        cs.drop_first()
    } else {
        cs
    }
}

/// The number that a text writes in decimal: an optional sign, then one
/// digit or more and nothing else. Other texts write no number.
pub open spec fn number(cs: Seq<char>) -> Option<int> {
    let body = unsigned_part(cs);
    if body.len() == 0 || !all_digits(body) {
        None
    } else if cs[0] == '-' {
        Some(-digits_value(body))
    } else {
        Some(digits_value(body))
    }
}

/// The number that a text writes, where it is an integer of 32 bits.
pub open spec fn number32(cs: Seq<char>) -> Option<i32> {
    match number(cs) {
        Some(n) => if -2147483648 <= n <= 2147483647 {
            Some(n as i32)
        } else {
            None
        },
        None => None,
    }
}

/// One digit more multiplies by ten and adds the digit.
proof fn lemma_digits_step(cs: Seq<char>, n: int)
    requires
        0 <= n < cs.len(),
    ensures
        digits_value(cs.take(n + 1)) == digits_value(cs.take(n)) * 10 + (cs[n] as int - '0' as int),
{
    assert(cs.take(n + 1).drop_last() =~= cs.take(n));
}

/// Digits never write less than their first digits do.
proof fn lemma_digits_grow(cs: Seq<char>, n: int)
    requires
        all_digits(cs),
        0 <= n <= cs.len(),
    ensures
        0 <= digits_value(cs.take(n)) <= digits_value(cs),
    decreases cs.len(),
{
    if n == cs.len() {
        assert(cs.take(n) =~= cs);
        if cs.len() > 0 {
            lemma_digits_grow(cs.drop_last(), cs.len() - 1);
            assert(cs.drop_last().take(cs.len() - 1) =~= cs.drop_last());
            assert(is_digit(cs[cs.len() - 1]));
        }
    } else {
        lemma_digits_grow(cs.drop_last(), n);
        assert(cs.drop_last().take(n) =~= cs.take(n));
        lemma_digits_grow(cs.drop_last(), cs.len() - 1);
        assert(cs.drop_last().take(cs.len() - 1) =~= cs.drop_last());
        assert(is_digit(cs[cs.len() - 1]));
    }
}

/// Reads the number that a text writes in decimal, where it is an integer
/// of 32 bits.
#[verifier::loop_isolation(false)]
pub fn parse_number(s: &str) -> (r: Option<i32>)
    ensures
        r == number32(s@),
{
    let ghost cs = s@;
    let ghost body = unsigned_part(cs);
    if !s.is_ascii() {
        proof {
            let i = choose|i: int| 0 <= i < cs.len() && !('\0' <= #[trigger] cs[i] <= '\u{7f}');
            if i == 0 {
                assert(!is_digit(body[0]));
            } else if body.len() < cs.len() {
                assert(!is_digit(body[i - 1]));
            } else {
                assert(!is_digit(body[i]));
            }
        }
        return None;
    }
    let bytes = s.as_bytes();
    proof {
        is_ascii_spec_bytes(s);
        assert(bytes@.len() == cs.len());
        assert forall|i: int| 0 <= i < cs.len() implies bytes@[i] == (#[trigger] cs[i]) as u8 by {}
    }
    let len = bytes.len();
    let negative = len > 0 && bytes[0] == 45;
    let start: usize = if len > 0 && (bytes[0] == 45 || bytes[0] == 43) {
        1
    } else {
        0
    };
    assert(body.len() == len - start);
    assert(forall|j: int| 0 <= j < body.len() ==> body[j] == cs[start + j]);
    assert(negative == (cs.len() > 0 && cs[0] == '-'));
    let mut acc: i64 = 0;
    let mut i: usize = start;
    assert(body.take(0) =~= Seq::<char>::empty());
    while i < len
        invariant
            start <= i <= len,
            forall|j: int| 0 <= j < i - start ==> is_digit(#[trigger] body[j]),
            acc == digits_value(body.take(i - start)),
            0 <= acc <= 2147483648,
        decreases len - i,
    {
        let b = bytes[i];
        proof {
            assert(b == cs[i as int] as u8);
            assert(body[i - start] == cs[i as int]);
        }
        if b < 48 || b > 57 {
            assert(!is_digit(body[i - start]));
            return None;
        }
        let next: i64 = acc * 10 + (b - 48) as i64;
        proof {
            lemma_digits_step(body, i - start);
            assert(is_digit(body[i - start]));
        }
        if next > 2147483648 {
            proof {
                if all_digits(body) {
                    lemma_digits_grow(body, i - start + 1);
                }
            }
            return None;
        }
        acc = next;
        i += 1;
    }
    proof {
        assert(body.take(i - start) =~= body);
        assert(all_digits(body));
    }
    if len == start {
        None
    } else if negative {
        Some((0 - acc) as i32)
    } else if acc <= 2147483647 {
        Some(acc as i32)
    } else {
        None
    }
}

} // verus!
