use echo_supervisor::decimal::{decimal_string, encode_decimal};

#[test]
fn zero_is_a_single_digit() {
    assert_eq!(encode_decimal(0), b"0".to_vec());
    assert_eq!(decimal_string(0), "0");
}

#[test]
fn single_digits() {
    for n in 0..10usize {
        assert_eq!(encode_decimal(n), vec![b'0' + n as u8]);
    }
}

#[test]
fn five_and_twelve() {
    assert_eq!(encode_decimal(5), b"5".to_vec());
    assert_eq!(encode_decimal(12), b"12".to_vec());
}

#[test]
fn powers_of_ten_keep_their_zeros() {
    assert_eq!(encode_decimal(10), b"10".to_vec());
    assert_eq!(encode_decimal(100), b"100".to_vec());
    assert_eq!(encode_decimal(1000), b"1000".to_vec());
    assert_eq!(encode_decimal(4096), b"4096".to_vec());
}

#[test]
fn largest_length() {
    assert_eq!(encode_decimal(usize::MAX), usize::MAX.to_string().into_bytes());
    assert_eq!(decimal_string(usize::MAX), usize::MAX.to_string());
}

#[test]
fn agrees_with_the_standard_rendering_up_to_the_read_limit() {
    for n in 0..=4096usize {
        assert_eq!(encode_decimal(n), n.to_string().into_bytes());
        assert_eq!(decimal_string(n), n.to_string());
    }
}

#[test]
fn text_and_bytes_agree() {
    for n in [0usize, 7, 42, 999, 1000, 65535, 1 << 40] {
        assert_eq!(decimal_string(n).into_bytes(), encode_decimal(n));
    }
}

#[test]
fn reading_back_gives_the_number() {
    for n in [0usize, 9, 10, 99, 100, 4095, 4096, 123456789] {
        let text = String::from_utf8(encode_decimal(n)).unwrap();
        assert_eq!(text.parse::<usize>().unwrap(), n);
    }
}

#[test]
fn no_leading_zero() {
    for n in 1..2000usize {
        assert_ne!(encode_decimal(n)[0], b'0');
    }
}
