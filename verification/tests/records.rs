use case_folding::parse_record;
use case_folding::RecordError;

#[test]
fn test_parse_record_with_mapping() {
    let line = "00C0;LATIN CAPITAL LETTER A WITH GRAVE;Lu;0;L;0041 0300;;;;N;LATIN CAPITAL LETTER A GRAVE;;;00E0;";
    assert_eq!(Ok(Some((0x00C0, 0x00E0))), parse_record(line));
}

#[test]
fn test_parse_record_without_mapping() {
    let line = "00E0;LATIN SMALL LETTER A WITH GRAVE;Ll;0;L;0061 0300;;;;N;LATIN SMALL LETTER A GRAVE;;00C0;;00C0";
    assert_eq!(Ok(None), parse_record(line));
}

#[test]
fn test_parse_record_missing_field() {
    assert_eq!(
        Err(RecordError::MissingLowercaseField),
        parse_record("0041;LATIN CAPITAL LETTER A")
    );
    assert_eq!(Err(RecordError::MissingLowercaseField), parse_record(""));
}

#[test]
fn test_parse_record_bad_hex() {
    // a non-hex character in the mapping field
    let line = "0041;x;Lu;0;L;;;;;N;;;;00GG;";
    assert_eq!(Err(RecordError::InvalidCodepoint), parse_record(line));
    // an empty codepoint field with a non-empty mapping field
    let line = ";x;Lu;0;L;;;;;N;;;;0061;";
    assert_eq!(Err(RecordError::InvalidCodepoint), parse_record(line));
    // a value that does not fit in 32 bits
    let line = "100000000;x;Lu;0;L;;;;;N;;;;0061;";
    assert_eq!(Err(RecordError::InvalidCodepoint), parse_record(line));
}

#[test]
fn test_parse_record_invalid_character() {
    // a surrogate is a codepoint but no scalar value
    let line = "D800;x;Cs;0;L;;;;;N;;;;0061;";
    assert_eq!(Err(RecordError::InvalidCharacter), parse_record(line));
    // beyond the last Unicode codepoint
    let line = "110000;x;Lu;0;L;;;;;N;;;;0061;";
    assert_eq!(Err(RecordError::InvalidCharacter), parse_record(line));
    // the mapping field is checked after the codepoint field
    let line = "0041;x;Lu;0;L;;;;;N;;;;D900;";
    assert_eq!(Err(RecordError::InvalidCharacter), parse_record(line));
}

#[test]
fn test_parse_record_lowercase_hex() {
    let line = "00c0;x;Lu;0;L;;;;;N;;;;00e0;";
    assert_eq!(Ok(Some((0x00C0, 0x00E0))), parse_record(line));
}
