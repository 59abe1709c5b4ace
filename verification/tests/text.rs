use ftls::text::{get_client_version, ipv4_string, parse_u8, u8_to_decimal, version_string, VersionError};

#[test]
fn decimal_text_of_bytes() {
    assert_eq!(u8_to_decimal(0), "0");
    assert_eq!(u8_to_decimal(9), "9");
    assert_eq!(u8_to_decimal(10), "10");
    assert_eq!(u8_to_decimal(99), "99");
    assert_eq!(u8_to_decimal(100), "100");
    assert_eq!(u8_to_decimal(255), "255");
}

#[test]
fn decimal_text_reads_back() {
    for n in 0..=255u8 {
        assert_eq!(parse_u8(&u8_to_decimal(n)), Some(n));
    }
}

#[test]
fn parse_u8_matches_std() {
    for s in ["", "+", "-", "-1", "+7", "007", "0255", "256", "1a", " 1", "١", "+-1", "99999999999"] {
        assert_eq!(parse_u8(s), s.parse::<u8>().ok(), "on {:?}", s);
    }
}

#[test]
fn version_string_is_dotted() {
    assert_eq!(version_string([1, 22, 255]), "1.22.255");
    assert_eq!(version_string([0, 0, 1]), "0.0.1");
}

#[test]
fn ipv4_string_is_dotted() {
    assert_eq!(ipv4_string([10, 8, 0, 1]), "10.8.0.1");
    assert_eq!(ipv4_string([255, 255, 255, 0]), "255.255.255.0");
}

#[test]
fn client_version_from_parts() {
    assert_eq!(get_client_version("0", "1", "2"), Ok([0, 1, 2]));
    assert_eq!(get_client_version("x", "1", "2"), Err(VersionError::MalformedMajor));
    assert_eq!(get_client_version("0", "256", "2"), Err(VersionError::MalformedMinor));
    assert_eq!(get_client_version("0", "1", ""), Err(VersionError::MalformedPatch));
    assert_eq!(get_client_version("1", "", ""), Err(VersionError::MalformedMinor));
}
