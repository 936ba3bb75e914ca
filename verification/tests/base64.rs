use nomad_api::base64::encode;

#[test]
fn base64_of_known_bytes() {
    let cases: [(&[u8], &str); 12] = [
        (b"", ""),
        (b"f", "Zg=="),
        (b"fo", "Zm8="),
        (b"foo", "Zm9v"),
        (b"foob", "Zm9vYg=="),
        (b"fooba", "Zm9vYmE="),
        (b"foobar", "Zm9vYmFy"),
        (b"hi", "aGk="),
        (&[0], "AA=="),
        (&[255], "/w=="),
        (&[0xfb, 0xff, 0xfe], "+//+"),
        (&[0x00, 0x10, 0x83, 0x10, 0x51, 0x87], "ABCDEFGH"),
    ];
    for (bytes, text) in cases {
        assert_eq!(encode(&bytes.to_vec()), text, "{:?}", bytes);
    }
}

#[test]
fn base64_uses_every_digit_in_order() {
    // The sixty-four values of six bits, in order, packed into forty-eight bytes.
    let mut bytes = Vec::new();
    let mut v: u32 = 0;
    while v < 64 {
        let word = (v << 18) | ((v + 1) << 12) | ((v + 2) << 6) | (v + 3);
        bytes.push((word >> 16) as u8);
        bytes.push((word >> 8) as u8);
        bytes.push(word as u8);
        v += 4;
    }
    assert_eq!(
        encode(&bytes),
        "ABCDEFGHIJKLMNOPQRSTUVWXYZabcdefghijklmnopqrstuvwxyz0123456789+/"
    );
}

#[test]
fn base64_makes_four_characters_of_every_three_bytes() {
    for n in 0..40usize {
        let bytes: Vec<u8> = (0..n).map(|i| (i * 37 % 256) as u8).collect();
        let text = encode(&bytes);
        assert_eq!(text.len(), 4 * ((n + 2) / 3), "{}", n);
        let pads = text.chars().filter(|c| *c == '=').count();
        assert_eq!(pads, (3 - n % 3) % 3, "{}", n);
        assert!(text.trim_end_matches('=').chars().all(|c| c.is_ascii_alphanumeric() || c == '+' || c == '/'));
    }
}
