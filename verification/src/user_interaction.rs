//! Reading node ids and drop rates typed by the user.
use vstd::prelude::*;

use crate::error::SimulationControllerError;
use crate::network::{NodeId, Pdr, spec_pdr_in_range};

verus! {

/// The Unicode `White_Space` characters, the ones `str::trim_end` removes.
pub open spec fn is_white_space(c: char) -> bool {
    let u = c as u32;
    ||| 0x09 <= u <= 0x0D
    ||| u == 0x20
    ||| u == 0x85
    ||| u == 0xA0
    ||| u == 0x1680
    ||| 0x2000 <= u <= 0x200A
    ||| u == 0x2028
    ||| u == 0x2029
    ||| u == 0x202F
    ||| u == 0x205F
    ||| u == 0x3000
}

/// `s` without its trailing white space.
pub open spec fn trimmed_end(s: Seq<char>) -> Seq<char>
    decreases s.len(),
{
    if s.len() > 0 && is_white_space(s.last()) {
        trimmed_end(s.drop_last())
    } else {
        s
    }
}

pub open spec fn is_digit(c: char) -> bool {
    0x30 <= (c as u32) <= 0x39
}

pub open spec fn all_digits(s: Seq<char>) -> bool {
    forall|i: int| 0 <= i < s.len() ==> is_digit(#[trigger] s[i])
}

/// Value of a string of decimal digits.
pub open spec fn digits_value(s: Seq<char>) -> nat
    decreases s.len(),
{
    if s.len() == 0 {
        0
    } else {
        10 * digits_value(s.drop_last()) + ((s.last() as u32) - 0x30) as nat
    }
}

/// What `str::parse::<u8>` accepts: an optional `+`, then at least one decimal digit,
/// with a value below 256.
pub open spec fn spec_parse_u8(s: Seq<char>) -> Option<u8> {
    let digits = if s.len() > 0 && s[0] == '+' { s.drop_first() } else { s };
    if digits.len() > 0 && all_digits(digits) && digits_value(digits) <= 255 {
        Some(digits_value(digits) as u8)
    } else {
        None
    }
}

/// Collects the characters of a string, in order.
fn chars_of(s: &String) -> (out: Vec<char>)
    ensures
        out@ == s@,
{
    let mut out: Vec<char> = Vec::new();
    for c in it: s.as_str().chars()
        invariant
            out@ == it.seq().take(it.index() as int),
            it.seq() == s@,
    {
        out.push(c);
    }
    out
}

fn white_space(c: char) -> (r: bool)
    ensures
        r == is_white_space(c),
{
    let u = c as u32;
    (0x09 <= u && u <= 0x0D) || u == 0x20 || u == 0x85 || u == 0xA0 || u == 0x1680
        || (0x2000 <= u && u <= 0x200A) || u == 0x2028 || u == 0x2029 || u == 0x202F
        || u == 0x205F || u == 0x3000
}

/// The value of the first `end` characters as a `u8`, as `spec_parse_u8` says.
fn parse_u8_prefix(cs: &Vec<char>, end: usize) -> (r: Option<u8>)
    requires
        end <= cs.len(),
    ensures
        r == spec_parse_u8(cs@.take(end as int)),
{
    let ghost s = cs@.take(end as int);
    let start: usize = if end > 0 && cs[0] == '+' { 1 } else { 0 };
    let ghost digits = s.skip(start as int);
    assert(digits == if s.len() > 0 && s[0] == '+' { s.drop_first() } else { s });
    if start == end {
        return None;
    }
    // `capped` is the value read so far, or 256 once it exceeds 255.
    let mut capped: u32 = 0;
    let mut i: usize = start;
    while i < end
        invariant
            start <= i <= end <= cs.len(),
            s == cs@.take(end as int),
            digits == s.skip(start as int),
            digits == if s.len() > 0 && s[0] == '+' { s.drop_first() } else { s },
            all_digits(digits.take(i - start)),
            capped == if digits_value(digits.take(i - start)) > 255 { 256 } else { digits_value(digits.take(i - start)) },
        decreases end - i,
    {
        let c = cs[i];
        let u = c as u32;
        if !(0x30 <= u && u <= 0x39) {
            assert(digits[i - start] == c);
            assert(!is_digit(digits[i - start]));
            assert(!all_digits(digits));
            return None;
        }
        let ghost prefix = digits.take(i - start);
        assert(digits.take(i + 1 - start).drop_last() == prefix);
        assert(digits.take(i + 1 - start).last() == c);
        assert(digits_value(digits.take(i + 1 - start)) == 10 * digits_value(prefix) + (u - 0x30));
        let next = capped * 10 + (u - 0x30);
        capped = if next > 255 { 256 } else { next };
        i = i + 1;
    }
    assert(digits.take(end - start) == digits);
    if capped > 255 {
        None
    } else {
        Some(capped as u8)
    }
}

/// Reads a node id from the user's input, which is emptied: trailing white space is
/// ignored, and anything else than what `str::parse::<u8>` accepts is `InvalidNodeId`.
pub fn parse_and_verify(input: &mut String) -> (r: Result<NodeId, SimulationControllerError>)
    ensures
        final(input)@ == Seq::<char>::empty(),
        match r {
            Ok(v) => spec_parse_u8(trimmed_end(old(input)@)) == Some(v),
            Err(e) => spec_parse_u8(trimmed_end(old(input)@)) is None && e is InvalidNodeId,
        },
{
    let cs = chars_of(input);
    *input = String::new();
    let mut end = cs.len();
    assert(cs@.take(end as int) == cs@);
    while end > 0 && white_space(cs[end - 1])
        invariant
            end <= cs.len(),
            trimmed_end(cs@) == trimmed_end(cs@.take(end as int)),
        decreases end,
    {
        assert(cs@.take(end as int).drop_last() == cs@.take(end - 1));
        end = end - 1;
    }
    assert(trimmed_end(cs@.take(end as int)) == cs@.take(end as int));
    match parse_u8_prefix(&cs, end) {
        Some(v) => Ok(v),
        None => Err(SimulationControllerError::InvalidNodeId),
    }
}

/// Checks the drop rate read from the user: `PacketDropRateOutOfRange` outside
/// `[0.0, 1.0]`.
pub fn pdr_verify(pdr: Pdr) -> (r: Result<Pdr, SimulationControllerError>)
    ensures
        match r {
            Ok(p) => spec_pdr_in_range(pdr.bits) && p == pdr,
            Err(e) => !spec_pdr_in_range(pdr.bits) && e is PacketDropRateOutOfRange,
        },
{
    if pdr.in_range() {
        Ok(pdr)
    } else {
        Err(SimulationControllerError::PacketDropRateOutOfRange)
    }
}

} // verus!
