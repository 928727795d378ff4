//! Decoding one record of a semicolon-delimited character-database listing:
//! field 0 holds a codepoint in hexadecimal, field 13 an optional simple
//! lowercase mapping in hexadecimal.  A record either yields one table pair,
//! is skipped (no mapping), or is rejected outright: the offline generation
//! step that consumes these records must fail fast rather than emit a partial
//! table.
use vstd::prelude::*;
use vstd::string::StrSliceExecFns;

verus! {

/// Why a record of the listing cannot be used.
#[derive(Clone, Copy, Debug, PartialEq, Eq)]
pub enum RecordError {
    /// The record has no field 13 to hold the lowercase mapping.
    MissingLowercaseField,
    /// A codepoint field is empty, holds a non-hex character, or does not
    /// fit in 32 bits.
    InvalidCodepoint,
    /// A codepoint value is no Unicode scalar value.
    InvalidCharacter,
}

/// The fields of `s` from position `p` on, `cur` being the part of the
/// current field read so far.
pub open spec fn fields_from(s: Seq<char>, p: int, cur: Seq<char>) -> Seq<Seq<char>>
    decreases s.len() - p,
{
    if p < 0 || p >= s.len() {
        seq![cur]
    } else if s[p] == ';' {
        seq![cur] + fields_from(s, p + 1, Seq::empty())
    } else {
        fields_from(s, p + 1, cur.push(s[p]))
    }
}

/// The semicolon-separated fields of a record; there is always at least one.
pub open spec fn spec_fields(s: Seq<char>) -> Seq<Seq<char>> {
    fields_from(s, 0, Seq::empty())
}

pub open spec fn is_hex_digit(c: char) -> bool {
    ||| 48 <= (c as u32) <= 57
    ||| 65 <= (c as u32) <= 70
    ||| 97 <= (c as u32) <= 102
}

pub open spec fn hex_digit_value(c: char) -> int {
    if 48 <= (c as u32) <= 57 {
        (c as u32) - 48
    } else if 65 <= (c as u32) <= 70 {
        (c as u32) - 55
    } else {
        (c as u32) - 87
    }
}

pub open spec fn all_hex_digits(s: Seq<char>) -> bool {
    forall|i: int| 0 <= i < s.len() ==> is_hex_digit(#[trigger] s[i])
}

/// The number a string of hex digits denotes, most significant digit first.
pub open spec fn hex_value(s: Seq<char>) -> int
    decreases s.len(),
{
    if s.len() == 0 {
        0
    } else {
        hex_value(s.drop_last()) * 16 + hex_digit_value(s.last())
    }
}

pub open spec fn is_scalar_value(v: int) -> bool {
    (0 <= v < 0xd800) || (0xe000 <= v <= 0x10ffff)
}

/// What decoding one codepoint field yields: its value, or the reason the
/// whole record must be rejected.  An empty field, a stray character and a
/// value over 32 bits are one kind of error; a well-formed number that is no
/// Unicode scalar value is another.
pub open spec fn spec_parse_scalar(s: Seq<char>) -> Result<u32, RecordError> {
    if s.len() == 0 || !all_hex_digits(s) || hex_value(s) > 0xffff_ffff {
        Err(RecordError::InvalidCodepoint)
    } else if !is_scalar_value(hex_value(s)) {
        Err(RecordError::InvalidCharacter)
    } else {
        Ok(hex_value(s) as u32)
    }
}

/// What one record yields: a table pair, nothing (no mapping), or an error.
/// A record with fewer than 14 fields is rejected; an empty mapping field
/// skips the record before either codepoint is looked at; otherwise field 0
/// is decoded first and field 13 second, each a Unicode scalar value.
pub open spec fn spec_parse_record(line: Seq<char>) -> Result<Option<(u32, u32)>, RecordError> {
    let fs = spec_fields(line);
    if fs.len() < 14 {
        Err(RecordError::MissingLowercaseField)
    } else if fs[13].len() == 0 {
        Ok(None)
    } else {
        match spec_parse_scalar(fs[0]) {
            Err(e) => Err(e),
            Ok(u) => match spec_parse_scalar(fs[13]) {
                Err(e) => Err(e),
                Ok(l) => Ok(Some((u, l))),
            },
        }
    }
}

fn hex_digit(c: char) -> (r: Option<u32>)
    ensures
        is_hex_digit(c) ==> r == Some(hex_digit_value(c) as u32),
        !is_hex_digit(c) ==> r is None,
{
    let u = c as u32;
    if 48 <= u && u <= 57 {
        Some(u - 48)
    } else if 65 <= u && u <= 70 {
        Some(u - 55)
    } else if 97 <= u && u <= 102 {
        Some(u - 87)
    } else {
        None
    }
}

fn split_fields(s: &str) -> (fields: Vec<String>)
    ensures
        fields@.map_values(|f: String| f@) == spec_fields(s@),
{
    let n = s.unicode_len();
    let mut fields: Vec<String> = Vec::new();
    let mut cur = String::new();
    let mut i: usize = 0;
    while i < n
        invariant
            n == s@.len(),
            0 <= i <= n,
            spec_fields(s@) == fields@.map_values(|f: String| f@) + fields_from(
                s@,
                i as int,
                cur@,
            ),
        decreases n - i,
    {
        let c = s.get_char(i);
        if c == ';' {
            fields.push(cur);
            cur = String::new();
            proof {
                assert(fields@.map_values(|f: String| f@) =~= fields@.drop_last().map_values(
                    |f: String| f@,
                ).push(fields@.last()@));
            }
        } else {
            cur.push(c);
        }
        i = i + 1;
    }
    fields.push(cur);
    proof {
        assert(fields@.map_values(|f: String| f@) =~= fields@.drop_last().map_values(
            |f: String| f@,
        ).push(fields@.last()@));
    }
    fields
}

fn parse_scalar(s: &str) -> (r: Result<u32, RecordError>)
    ensures
        r == spec_parse_scalar(s@),
{
    let n = s.unicode_len();
    if n == 0 {
        return Err(RecordError::InvalidCodepoint);
    }
    let mut acc: u32 = 0;
    let mut overflowed: bool = false;
    let mut i: usize = 0;
    while i < n
        invariant
            n == s@.len(),
            0 <= i <= n,
            all_hex_digits(s@.take(i as int)),
            overflowed == (hex_value(s@.take(i as int)) > 0xffff_ffff),
            !overflowed ==> acc == hex_value(s@.take(i as int)),
        decreases n - i,
    {
        let c = s.get_char(i);
        let d = match hex_digit(c) {
            Some(d) => d,
            None => {
                return Err(RecordError::InvalidCodepoint);
            },
        };
        proof {
            assert(s@.take(i as int + 1).drop_last() =~= s@.take(i as int));
            assert(s@.take(i as int + 1).last() == s@[i as int]);
            assert forall|j: int| 0 <= j < i as int + 1 implies is_hex_digit(
                #[trigger] s@.take(i as int + 1)[j],
            ) by {
                if j < i as int {
                    assert(is_hex_digit(s@.take(i as int)[j]));
                }
            }
        }
        if !overflowed {
            if acc > (0xffff_ffffu32 - d) / 16 {
                proof {
                    let hv = hex_value(s@.take(i as int));
                    let dv = hex_digit_value(s@[i as int]);
                    assert(16 * ((0xffff_ffff - dv) / 16) + 16 > 0xffff_ffff - dv) by (nonlinear_arith)
                        requires
                            0 <= dv <= 15,
                    ;
                    assert(16 * hv + dv > 0xffff_ffff) by (nonlinear_arith)
                        requires
                            hv >= ((0xffff_ffff - dv) / 16) + 1,
                            16 * ((0xffff_ffff - dv) / 16) + 16 > 0xffff_ffff - dv,
                            0 <= dv,
                    ;
                }
                overflowed = true;
            } else {
                proof {
                    let dv = hex_digit_value(s@[i as int]);
                    assert(16 * (acc as int) <= 0xffff_ffff - dv) by (nonlinear_arith)
                        requires
                            0 <= dv <= 15,
                            0 <= acc as int <= (0xffff_ffff - dv) / 16,
                    ;
                }
                acc = acc * 16 + d;
            }
        } else {
            proof {
                let hv = hex_value(s@.take(i as int));
                let dv = hex_digit_value(s@[i as int]);
                assert(16 * hv + dv > 0xffff_ffff) by (nonlinear_arith)
                    requires
                        hv > 0xffff_ffff,
                        0 <= dv,
                ;
            }
        }
        i = i + 1;
    }
    proof {
        assert(s@.take(n as int) =~= s@);
    }
    if overflowed {
        return Err(RecordError::InvalidCodepoint);
    }
    if acc < 0xd800 || (0xe000 <= acc && acc <= 0x10ffff) {
        Ok(acc)
    } else {
        Err(RecordError::InvalidCharacter)
    }
}

/// Decode one record of the listing.  Yields the (upper, lower) codepoint
/// values of its mapping, nothing when the record has no simple lowercase
/// mapping, and an error on any malformed record; both codepoints of a pair
/// are Unicode scalar values.
pub fn parse_record(line: &str) -> (r: Result<Option<(u32, u32)>, RecordError>)
    ensures
        r == spec_parse_record(line@),
{
    let fields = split_fields(line);
    proof {
        assert(fields@.len() == spec_fields(line@).len());
    }
    if fields.len() < 14 {
        return Err(RecordError::MissingLowercaseField);
    }
    proof {
        assert(fields@[0]@ == spec_fields(line@)[0]);
        assert(fields@[13]@ == spec_fields(line@)[13]);
    }
    if fields[13].as_str().is_empty() {
        return Ok(None);
    }
    let u = match parse_scalar(fields[0].as_str()) {
        Ok(v) => v,
        Err(e) => {
            return Err(e);
        },
    };
    let l = match parse_scalar(fields[13].as_str()) {
        Ok(v) => v,
        Err(e) => {
            return Err(e);
        },
    };
    Ok(Some((u, l)))
}

} // verus!
