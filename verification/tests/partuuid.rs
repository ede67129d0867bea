use isak::partuuid_token;

fn sample() -> [u8; 16] {
    [
        0x67, 0xe5, 0x50, 0x44, 0x10, 0xb1, 0x42, 0x6f, 0x92, 0x47, 0xbb, 0x68, 0x0e, 0x5f, 0xe0,
        0xc8,
    ]
}

#[test]
fn token_of_a_known_uuid() {
    assert_eq!(partuuid_token(&sample()), "PARTUUID=67e55044-10b1-426f-9247-bb680e5fe0c8");
}

#[test]
fn token_of_the_nil_uuid() {
    assert_eq!(partuuid_token(&[0u8; 16]), "PARTUUID=00000000-0000-0000-0000-000000000000");
}

#[test]
fn token_of_the_max_uuid_is_lower_case() {
    assert_eq!(partuuid_token(&[0xffu8; 16]), "PARTUUID=ffffffff-ffff-ffff-ffff-ffffffffffff");
}

#[test]
fn token_keeps_the_byte_order() {
    let uuid: [u8; 16] = [0, 1, 2, 3, 4, 5, 6, 7, 8, 9, 10, 11, 12, 13, 14, 15];
    assert_eq!(partuuid_token(&uuid), "PARTUUID=00010203-0405-0607-0809-0a0b0c0d0e0f");
}

#[test]
fn token_puts_the_high_digit_first() {
    let mut uuid = [0u8; 16];
    uuid[0] = 0x1a;
    uuid[15] = 0xf0;
    assert_eq!(partuuid_token(&uuid), "PARTUUID=1a000000-0000-0000-0000-0000000000f0");
}

#[test]
fn token_has_forty_five_characters() {
    let token = partuuid_token(&sample());
    assert_eq!(token.chars().count(), 45);
    assert!(token.starts_with("PARTUUID="));
}

#[test]
fn token_has_hyphens_after_8_4_4_4_digits() {
    let token = partuuid_token(&sample());
    let text: Vec<char> = token.chars().skip(9).collect();
    assert_eq!(text.len(), 36);
    for (i, c) in text.iter().enumerate() {
        if i == 8 || i == 13 || i == 18 || i == 23 {
            assert_eq!(*c, '-');
        } else {
            assert!(matches!(*c, '0'..='9' | 'a'..='f'));
        }
    }
}

#[test]
fn token_agrees_with_the_uuid_crate() {
    let samples: [[u8; 16]; 3] = [sample(), [0x5a; 16], [0xa5; 16]];
    for bytes in samples.iter() {
        let expected = format!("PARTUUID={}", uuid::Uuid::from_bytes(*bytes).hyphenated());
        assert_eq!(partuuid_token(bytes), expected);
    }
}

#[test]
fn different_uuids_give_different_tokens() {
    let mut other = sample();
    other[7] ^= 0x01;
    assert_ne!(partuuid_token(&sample()), partuuid_token(&other));
}
