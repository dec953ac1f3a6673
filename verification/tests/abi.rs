use ipc_bridge::abi::{address_output, empty_output, encoded_output};

#[test]
fn encoded_output_is_lower_case_hex_after_0x() {
    assert_eq!(encoded_output(&[0x00, 0xff, 0x1a, 0xb2]), "0x00ff1ab2");
    assert_eq!(
        encoded_output(&[0x01, 0x23, 0x45, 0x67, 0x89, 0xab, 0xcd, 0xef]),
        "0x0123456789abcdef"
    );
}

#[test]
fn encoded_output_of_nothing_is_0x() {
    assert_eq!(encoded_output(&[]), "0x");
    assert_eq!(empty_output(), "0x");
}

#[test]
fn encoded_output_doubles_the_length() {
    let bytes: Vec<u8> = (0..=255u8).collect();
    let text = encoded_output(&bytes);
    assert_eq!(text.len(), 2 + 512);
    assert_eq!(&text[2..6], "0001");
    assert_eq!(&text[510..514], "feff");
}

#[test]
fn address_output_is_the_abi_string() {
    let expected = String::from("0x")
        + "0000000000000000000000000000000000000000000000000000000000000020"
        + "0000000000000000000000000000000000000000000000000000000000000010"
        + "2f746d702f6170702e776f726c642d3100000000000000000000000000000000";
    assert_eq!(address_output("/tmp/app.world-1"), expected);
}

#[test]
fn address_output_of_a_namespaced_address() {
    let expected = String::from("0x")
        + "0000000000000000000000000000000000000000000000000000000000000020"
        + "0000000000000000000000000000000000000000000000000000000000000015"
        + "406170702e776f726c642d343239343936373239350000000000000000000000";
    assert_eq!(address_output("@app.world-4294967295"), expected);
}

#[test]
fn address_output_pads_to_whole_words() {
    let text = address_output("/tmp/app.world-4294967295xxxxxxxxxxxx");
    assert_eq!(text.len(), 2 + 2 * (32 + 32 + 64));
    assert_eq!(address_output("").len(), 2 + 2 * (32 + 32));
}
