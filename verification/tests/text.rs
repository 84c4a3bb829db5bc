use ossm_ble::text::{char_is_space, chars_of, parse_i32_range, push_int_decimal, trim_bounds};

#[test]
fn whitespace_matches_std() {
    for code in 0u32..0x3100 {
        if let Some(c) = char::from_u32(code) {
            assert_eq!(char_is_space(c), c.is_whitespace(), "U+{:04X}", code);
        }
    }
}

#[test]
fn trim_matches_std() {
    for s in ["", "   ", " a ", "a", "\u{2028}x y\u{85}", "\t\n"] {
        let v = chars_of(s);
        let (i, j) = trim_bounds(&v);
        let got: String = v[i..j].iter().collect();
        assert_eq!(got, s.trim());
    }
}

#[test]
fn parse_matches_std() {
    for s in ["", "+", "-", "0", "-0", "+0", "42", "-42", "+42", "2147483647", "2147483648",
        "-2147483648", "-2147483649", "1a", " 1", "00000000000000000000001", "--1", "1-"]
    {
        let v = chars_of(s);
        assert_eq!(parse_i32_range(&v, 0, v.len()), s.parse::<i32>().ok(), "{:?}", s);
    }
}

#[test]
fn decimal_matches_format() {
    for n in [i32::MIN, -1000, -1, 0, 7, 10, 99, 100, 65536, i32::MAX] {
        let mut s = String::from("x");
        push_int_decimal(&mut s, n);
        assert_eq!(s, format!("x{}", n));
    }
}
