use vstd::prelude::*;

use crate::errors::ErrorCode;

verus! {

/// Longest accepted name, in bytes.
pub const MAX_NAME_BYTES: usize = 32;

/// A character of Unicode's White_Space property.
pub open spec fn white_space(c: char) -> bool {
    let u = c as u32;
    ||| 0x09 <= u <= 0x0d
    ||| u == 0x20
    ||| u == 0x85
    ||| u == 0xa0
    ||| u == 0x1680
    ||| 0x2000 <= u <= 0x200a
    ||| u == 0x2028
    ||| u == 0x2029
    ||| u == 0x202f
    ||| u == 0x205f
    ||| u == 0x3000
}

/// `s` without its leading white space.
pub open spec fn trimmed_start(s: Seq<char>) -> Seq<char>
    decreases s.len(),
{
    if s.len() > 0 && white_space(s[0]) {
        trimmed_start(s.drop_first())
    } else {
        s
    }
}

/// `s` without its trailing white space.
pub open spec fn trimmed_end(s: Seq<char>) -> Seq<char>
    decreases s.len(),
{
    if s.len() > 0 && white_space(s.last()) {
        trimmed_end(s.drop_last())
    } else {
        s
    }
}

/// `s` without leading and trailing white space.
pub open spec fn trimmed_of(s: Seq<char>) -> Seq<char> {
    trimmed_end(trimmed_start(s))
}

/// Relies on `str::trim`: the string without leading and trailing
/// whitespace, whitespace being Unicode's White_Space property.
#[verifier::external_body]
fn trim_name(s: &str) -> (r: &str)
    ensures
        r@ == trimmed_of(s@),
{
    s.trim()
}

/// A printable ASCII character: neither control nor beyond ASCII.
pub open spec fn printable_ascii(c: char) -> bool {
    ' ' <= c && c <= '~'
}

/// The verdict on an already trimmed name.
pub open spec fn name_verdict(t: Seq<char>) -> Result<(), ErrorCode> {
    if t.len() == 0 {
        Err(ErrorCode::InvalidName)
    } else if vstd::utf8::encode_utf8(t).len() > MAX_NAME_BYTES {
        Err(ErrorCode::NameTooLong)
    } else if !(forall|i: int| 0 <= i < t.len() ==> printable_ascii(#[trigger] t[i])) {
        Err(ErrorCode::InvalidName)
    } else {
        Ok(())
    }
}

/// Checks a trimmed name: not empty, at most 32 bytes, printable ASCII only.
pub fn check_trimmed_name(t: &str) -> (r: Result<(), ErrorCode>)
    ensures
        r == name_verdict(t@),
{
    if t.is_empty() {
        return Err(ErrorCode::InvalidName);
    }
    let bytes = t.as_bytes();
    if bytes.len() > MAX_NAME_BYTES {
        return Err(ErrorCode::NameTooLong);
    }
    if !t.is_ascii() {
        proof {
            assert(!vstd::utf8::is_ascii_chars(t@));
            let k = choose|k: int| 0 <= k < t@.len() && !('\0' <= #[trigger] t@[k] <= '\u{7f}');
            assert(!printable_ascii(t@[k]));
        }
        return Err(ErrorCode::InvalidName);
    }
    proof {
        vstd::string::is_ascii_spec_bytes(t);
    }
    let mut i: usize = 0;
    while i < bytes.len()
        invariant
            0 <= i <= bytes@.len(),
            bytes@.len() == t@.len(),
            bytes@ == vstd::utf8::encode_utf8(t@),
            bytes@.len() <= MAX_NAME_BYTES,
            t@.len() > 0,
            forall|j: int| 0 <= j < t@.len() ==> bytes@[j] == t@[j] as u8,
            vstd::utf8::is_ascii_chars(t@),
            forall|j: int| 0 <= j < i ==> printable_ascii(#[trigger] t@[j]),
        decreases bytes@.len() - i,
    {
        let b = bytes[i];
        if b < 32 || b == 127 {
            proof {
                vstd::utf8::is_ascii_chars_nat_bound(t@);
                assert((t@[i as int] as nat) < 128);
                assert(!printable_ascii(t@[i as int]));
            }
            return Err(ErrorCode::InvalidName);
        }
        i = i + 1;
    }
    Ok(())
}

/// Trims a proposed fish name and checks it; returns the trimmed name.
pub fn validate_name(name: &str) -> (r: Result<String, ErrorCode>)
    ensures
        match r {
            Ok(n) => name_verdict(trimmed_of(name@)) is Ok && n@ == trimmed_of(name@),
            Err(e) => name_verdict(trimmed_of(name@)) == Err::<(), ErrorCode>(e),
        },
{
    let trimmed = trim_name(name);
    match check_trimmed_name(trimmed) {
        Ok(()) => Ok(trimmed.to_owned()),
        Err(e) => Err(e),
    }
}

} // verus!
