use qrshare::link::{build_link, u16_to_decimal};

#[test]
fn builds_the_exact_download_link() {
    let link = build_link("192.168.1.10", 54321);
    assert_eq!(link, "http://192.168.1.10:54321/download");
}

#[test]
fn builds_a_loopback_link() {
    let link = build_link("127.0.0.1", 1024);
    assert_eq!(link, "http://127.0.0.1:1024/download");
}

#[test]
fn writes_ports_in_decimal() {
    assert_eq!(u16_to_decimal(0), "0");
    assert_eq!(u16_to_decimal(7), "7");
    assert_eq!(u16_to_decimal(10), "10");
    assert_eq!(u16_to_decimal(1024), "1024");
    assert_eq!(u16_to_decimal(65534), "65534");
}
