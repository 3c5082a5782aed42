use zoomosc_lite::osc::osc_address;

#[test]
fn reads_padded_osc_address() {
    let packet = b"/zoom/video/on\0,\0\0\0";
    assert_eq!(osc_address(packet).unwrap(), "/zoom/video/on");
}

#[test]
fn rejects_non_osc_packet() {
    assert!(osc_address(b"zoom/video/on\0").is_err());
}

#[test]
fn empty_packet_is_not_osc() {
    assert_eq!(osc_address(b"").unwrap_err(), "pacote não é uma mensagem OSC");
}

#[test]
fn non_osc_packet_names_the_problem() {
    assert_eq!(osc_address(b"zoom/video/on\0").unwrap_err(), "pacote não é uma mensagem OSC");
}

#[test]
fn address_without_terminator_is_rejected() {
    assert_eq!(osc_address(b"/zoom/video/on").unwrap_err(), "endereço OSC sem terminador");
}

#[test]
fn address_that_is_not_utf8_is_rejected() {
    assert_eq!(osc_address(b"/zoom/\xff\0").unwrap_err(), "endereço OSC não é UTF-8");
}

#[test]
fn address_stops_at_first_nul() {
    assert_eq!(osc_address(b"/a\0/b\0").unwrap(), "/a");
}

#[test]
fn bare_slash_is_an_address() {
    assert_eq!(osc_address(b"/\0").unwrap(), "/");
}

#[test]
fn multibyte_address_is_decoded() {
    assert_eq!(osc_address("/câmara\0".as_bytes()).unwrap(), "/câmara");
}
