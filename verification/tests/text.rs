use packet_decode::codec::{bits, copy_range, ipv4_at, join, mac_at, tail, u16_be, u32_be};
use packet_decode::text::{
    push_decimal, push_decimal_list, push_hex, push_hex_fixed, push_hex_list, push_truth,
};
use packet_decode::utils::{to_hex_string, to_ip_string, to_mac_string};

#[test]
fn big_endian_numbers_are_read_high_byte_first() {
    let bytes = [0x12, 0x34, 0x56, 0x78, 0x9a];
    assert_eq!(u16_be(&bytes, 0), 0x1234);
    assert_eq!(u16_be(&bytes, 3), 0x789a);
    assert_eq!(u32_be(&bytes, 0), 0x12345678);
    assert_eq!(u32_be(&bytes, 1), 0x3456789a);
    assert_eq!(u16_be(&[0xff, 0xff], 0), 0xffff);
    assert_eq!(u32_be(&[0xff, 0xff, 0xff, 0xff], 0), 0xffff_ffff);
    assert_eq!(join(0x1f, 0xfe), 0x1ffe);
    assert_eq!(join(0x01, 0x00), 256);
}

#[test]
fn bit_fields_are_shifted_down_and_masked() {
    assert_eq!(bits(0b1011_0110, 4, 4), 0b1011);
    assert_eq!(bits(0b1011_0110, 0, 4), 0b0110);
    assert_eq!(bits(0b1011_0110, 2, 6), 0b10_1101);
    assert_eq!(bits(0b1011_0110, 0, 2), 0b10);
    assert_eq!(bits(0b1011_0110, 5, 3), 0b101);
    assert_eq!(bits(0b1011_0110, 1, 3), 0b011);
    assert_eq!(bits(0xff, 7, 1), 1);
    assert_eq!(bits(0x7f, 7, 1), 0);
    assert_eq!(bits(0xa5, 0, 8), 0xa5);
    assert_eq!(bits(0xa5, 7, 8), 1);
    for byte in 0u8..=255 {
        assert_eq!(bits(byte, 4, 4), byte >> 4);
        assert_eq!(bits(byte, 0, 4), byte & 0x0f);
    }
}

#[test]
fn addresses_and_ranges_are_copied_from_their_offsets() {
    let bytes: Vec<u8> = (10u8..30).collect();
    assert_eq!(mac_at(&bytes, 0), [10, 11, 12, 13, 14, 15]);
    assert_eq!(mac_at(&bytes, 14), [24, 25, 26, 27, 28, 29]);
    assert_eq!(ipv4_at(&bytes, 3), [13, 14, 15, 16]);
    assert_eq!(copy_range(&bytes, 2, 5), vec![12, 13, 14]);
    assert_eq!(copy_range(&bytes, 7, 7), Vec::<u8>::new());
    assert_eq!(tail(&bytes, 17), &[27, 28, 29]);
    assert_eq!(tail(&bytes, 20), &[] as &[u8]);
}

#[test]
fn decimal_numbers_have_no_leading_zeros() {
    for (number, expected) in
        [(0u32, "0"), (9, "9"), (10, "10"), (255, "255"), (65535, "65535"), (4294967295, "4294967295")]
    {
        let mut out = String::from("n=");
        push_decimal(&mut out, number);
        assert_eq!(out, format!("n={}", expected));
    }
}

#[test]
fn hexadecimal_numbers_are_lower_case() {
    for (number, expected) in
        [(0u32, "0"), (9, "9"), (10, "a"), (15, "f"), (16, "10"), (0xbeef, "beef"), (0xffff_ffff, "ffffffff")]
    {
        let mut out = String::from("0x");
        push_hex(&mut out, number);
        assert_eq!(out, format!("0x{}", expected));
    }
}

#[test]
fn fixed_width_hexadecimal_keeps_leading_zeros() {
    for (number, width, expected) in [
        (0u32, 2u32, "00"),
        (0x0a, 2, "0a"),
        (0xab, 4, "00ab"),
        (0xbeef, 4, "beef"),
        (0x01020304, 8, "01020304"),
        (0x12345, 4, "2345"),
        (0xff, 0, ""),
    ] {
        let mut out = String::new();
        push_hex_fixed(&mut out, number, width);
        assert_eq!(out, expected);
    }
}

#[test]
fn truth_values_are_spelled_out() {
    let mut out = String::new();
    push_truth(&mut out, true);
    out.push(' ');
    push_truth(&mut out, false);
    assert_eq!(out, "true false");
}

#[test]
fn byte_lists_put_the_separator_between_the_bytes_only() {
    let mut out = String::from("<");
    push_hex_list(&mut out, &[0x00, 0x0f, 0xa0], "-");
    out.push_str("> <");
    push_decimal_list(&mut out, &[0, 15, 160], ", ");
    out.push_str("> <");
    push_hex_list(&mut out, &[], "-");
    push_decimal_list(&mut out, &[], "-");
    out.push_str("> <");
    push_hex_list(&mut out, &[7], "-");
    push_decimal_list(&mut out, &[7], "-");
    out.push('>');
    assert_eq!(out, "<00-0f-a0> <0, 15, 160> <> <077>");
}

#[test]
fn byte_strings_in_hexadecimal() {
    assert_eq!(to_hex_string(&[0x00, 0x0f, 0xa0, 0xff]), "00 0f a0 ff");
    assert_eq!(to_hex_string(&[0x07]), "07");
    assert_eq!(to_hex_string(&[]), "");
    assert_eq!(packet_decode::packet_handler::to_hex_string(&[0xde, 0xad]), "de ad");
}

#[test]
fn addresses_as_text() {
    assert_eq!(to_ip_string(&[192, 168, 0, 1]), "192.168.0.1");
    assert_eq!(to_ip_string(&[255, 100, 10, 9]), "255.100.10.9");
    assert_eq!(to_ip_string(&[0]), "0");
    assert_eq!(to_ip_string(&[]), "");
    assert_eq!(to_mac_string(&[0xaa, 0xbb, 0xcc, 0xdd, 0xee, 0xff]), "aa:bb:cc:dd:ee:ff");
    assert_eq!(to_mac_string(&[0x00, 0x01, 0x0a]), "00:01:0a");
}

#[test]
fn byte_strings_agree_with_the_standard_formatting() {
    let bytes: Vec<u8> = (0u8..=255).collect();
    let hex: Vec<String> = bytes.iter().map(|b| format!("{:02x}", b)).collect();
    let decimal: Vec<String> = bytes.iter().map(|b| format!("{}", b)).collect();
    assert_eq!(to_hex_string(&bytes), hex.join(" "));
    assert_eq!(to_mac_string(&bytes), hex.join(":"));
    assert_eq!(to_ip_string(&bytes), decimal.join("."));
}

#[test]
fn numbers_agree_with_the_standard_formatting() {
    let mut samples: Vec<u32> = (0u32..=70000).collect();
    let mut power: u32 = 1;
    for _ in 0..32 {
        samples.push(power);
        samples.push(power - 1);
        samples.push(power.wrapping_mul(3));
        power = power.wrapping_mul(2);
    }
    samples.extend_from_slice(&[999_999_999, 1_000_000_000, 4_294_967_295, 0xdead_beef]);
    for number in samples {
        let mut decimal = String::new();
        push_decimal(&mut decimal, number);
        assert_eq!(decimal, format!("{}", number));
        let mut hex = String::new();
        push_hex(&mut hex, number);
        assert_eq!(hex, format!("{:x}", number));
        let mut eight = String::new();
        push_hex_fixed(&mut eight, number, 8);
        assert_eq!(eight, format!("{:08x}", number));
        if number <= 0xffff {
            let mut four = String::new();
            push_hex_fixed(&mut four, number, 4);
            assert_eq!(four, format!("{:04x}", number));
        }
    }
}
