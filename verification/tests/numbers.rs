use fsapi::number::{decimal, parse_i16, parse_u32, parse_u8, signed_decimal};

#[test]
fn parse_u8_reads_decimal() {
    assert_eq!(parse_u8(b"0"), Some(0));
    assert_eq!(parse_u8(b"7"), Some(7));
    assert_eq!(parse_u8(b"255"), Some(255));
    assert_eq!(parse_u8(b"+255"), Some(255));
    assert_eq!(parse_u8(b"000255"), Some(255));
    assert_eq!(parse_u8(b"256"), None);
    assert_eq!(parse_u8(b"1000"), None);
    assert_eq!(parse_u8(b""), None);
    assert_eq!(parse_u8(b"+"), None);
    assert_eq!(parse_u8(b"-"), None);
    assert_eq!(parse_u8(b"-0"), None);
    assert_eq!(parse_u8(b"-1"), None);
    assert_eq!(parse_u8(b" 1"), None);
    assert_eq!(parse_u8(b"1 "), None);
    assert_eq!(parse_u8(b"1_0"), None);
    assert_eq!(parse_u8(b"++1"), None);
    assert_eq!(parse_u8(b"1a"), None);
    assert_eq!(parse_u8(b"a1"), None);
    assert_eq!(parse_u8(&[0x31, 0xff]), None);
}

#[test]
fn parse_u32_reads_decimal() {
    assert_eq!(parse_u32(b"0"), Some(0));
    assert_eq!(parse_u32(b"65536"), Some(65536));
    assert_eq!(parse_u32(b"4294967295"), Some(4294967295));
    assert_eq!(parse_u32(b"+4294967295"), Some(4294967295));
    assert_eq!(parse_u32(b"4294967296"), None);
    assert_eq!(parse_u32(b"42949672950"), None);
    assert_eq!(parse_u32(b"99999999999999999999999999999999"), None);
    assert_eq!(parse_u32(b"00000000000000000000000000000001"), Some(1));
    assert_eq!(parse_u32(b"-1"), None);
    assert_eq!(parse_u32(b""), None);
    assert_eq!(parse_u32(b"12.5"), None);
}

#[test]
fn parse_i16_reads_decimal_with_a_sign() {
    assert_eq!(parse_i16(b"0"), Some(0));
    assert_eq!(parse_i16(b"-0"), Some(0));
    assert_eq!(parse_i16(b"+0"), Some(0));
    assert_eq!(parse_i16(b"-7"), Some(-7));
    assert_eq!(parse_i16(b"32767"), Some(32767));
    assert_eq!(parse_i16(b"+32767"), Some(32767));
    assert_eq!(parse_i16(b"32768"), None);
    assert_eq!(parse_i16(b"-32768"), Some(-32768));
    assert_eq!(parse_i16(b"-32769"), None);
    assert_eq!(parse_i16(b"-032768"), Some(-32768));
    assert_eq!(parse_i16(b"--1"), None);
    assert_eq!(parse_i16(b"-+1"), None);
    assert_eq!(parse_i16(b"+-1"), None);
    assert_eq!(parse_i16(b"-"), None);
    assert_eq!(parse_i16(b""), None);
    assert_eq!(parse_i16(b"1-"), None);
}

#[test]
fn parsing_agrees_with_the_standard_library() {
    let alphabet = [b'0', b'1', b'9', b'+', b'-', b' ', b'a'];
    let mut texts: Vec<Vec<u8>> = vec![vec![]];
    let mut last: Vec<Vec<u8>> = vec![vec![]];
    for _ in 0..4 {
        let mut next = Vec::new();
        for text in &last {
            for c in alphabet {
                let mut longer = text.clone();
                longer.push(c);
                next.push(longer);
            }
        }
        texts.extend(next.iter().cloned());
        last = next;
    }
    for n in [254u64, 255, 256, 32766, 32767, 32768, 32769, 4294967294, 4294967295, 4294967296] {
        texts.push(n.to_string().into_bytes());
        texts.push(format!("-{}", n).into_bytes());
        texts.push(format!("+{}", n).into_bytes());
    }
    for text in texts {
        let s = String::from_utf8(text.clone()).unwrap();
        assert_eq!(parse_u8(&text), s.parse::<u8>().ok());
        assert_eq!(parse_u32(&text), s.parse::<u32>().ok());
        assert_eq!(parse_i16(&text), s.parse::<i16>().ok());
    }
}

#[test]
fn decimal_writes_without_leading_zeros() {
    assert_eq!(decimal(0), "0");
    assert_eq!(decimal(7), "7");
    assert_eq!(decimal(10), "10");
    assert_eq!(decimal(65536), "65536");
    assert_eq!(decimal(4294967295), "4294967295");
    assert_eq!(decimal(18446744073709551615), "18446744073709551615");
}

#[test]
fn signed_decimal_writes_the_sign_of_negative_numbers() {
    assert_eq!(signed_decimal(0), "0");
    assert_eq!(signed_decimal(7), "7");
    assert_eq!(signed_decimal(-7), "-7");
    assert_eq!(signed_decimal(-32768), "-32768");
    assert_eq!(signed_decimal(9223372036854775807), "9223372036854775807");
    assert_eq!(signed_decimal(-9223372036854775808), "-9223372036854775808");
}

#[test]
fn what_is_written_reads_back() {
    for n in 0..=255u64 {
        assert_eq!(parse_u8(decimal(n).as_bytes()), Some(n as u8));
    }
    for n in [0u64, 9, 10, 99, 100, 65535, 65536, 4294967295] {
        assert_eq!(parse_u32(decimal(n).as_bytes()), Some(n as u32));
    }
    for n in -300i64..=300 {
        assert_eq!(parse_i16(signed_decimal(n).as_bytes()), Some(n as i16));
    }
    assert_eq!(parse_i16(signed_decimal(-32768).as_bytes()), Some(-32768));
}
