use vless_ws::text::{format_ipv4, format_ipv6};

fn v6(words: [u16; 8]) -> String {
    String::from_utf8(format_ipv6(&words.to_vec())).unwrap()
}

#[test]
fn ipv4_is_dotted_decimal_without_leading_zeros() {
    assert_eq!(format_ipv4(0, 0, 0, 0), b"0.0.0.0".to_vec());
    assert_eq!(format_ipv4(255, 255, 255, 255), b"255.255.255.255".to_vec());
    assert_eq!(format_ipv4(93, 184, 216, 34), b"93.184.216.34".to_vec());
    assert_eq!(format_ipv4(10, 0, 7, 100), b"10.0.7.100".to_vec());
}

#[test]
fn ipv6_compresses_the_longest_zero_run() {
    assert_eq!(v6([0, 0, 0, 0, 0, 0, 0, 0]), "[::]");
    assert_eq!(v6([0, 0, 0, 0, 0, 0, 0, 1]), "[::1]");
    assert_eq!(v6([0x2001, 0xdb8, 0, 0, 0, 0, 0, 1]), "[2001:db8::1]");
    assert_eq!(v6([0x2001, 0xdb8, 0, 0, 1, 0, 0, 1]), "[2001:db8::1:0:0:1]");
}

#[test]
fn ipv6_leaves_a_single_zero_group_uncompressed() {
    assert_eq!(
        v6([0x2001, 0xdb8, 0, 1, 1, 1, 1, 1]),
        "[2001:db8:0:1:1:1:1:1]"
    );
}

#[test]
fn ipv6_prefers_the_leftmost_of_equal_runs() {
    assert_eq!(v6([1, 0, 0, 1, 0, 0, 1, 1]), "[1::1:0:0:1:1]");
}

#[test]
fn ipv6_hex_groups_are_lowercase_without_leading_zeros() {
    assert_eq!(
        v6([0xabcd, 0xef01, 0x23, 0x4500, 0x6, 0x78, 0x9ab, 0xcdef]),
        "[abcd:ef01:23:4500:6:78:9ab:cdef]"
    );
}

#[test]
fn ipv6_prints_ipv4_mapped_addresses_in_mixed_form() {
    assert_eq!(v6([0, 0, 0, 0, 0, 0xffff, 0xc000, 0x0201]), "[::ffff:192.0.2.1]");
}
