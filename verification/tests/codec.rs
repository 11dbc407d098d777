use xor_cipher::codec::{base64_decode, base64_encode, can_encode};
use xor_cipher::error::CipherError;

const VECTORS: [(&str, &str); 7] = [
    ("", ""),
    ("f", "Zg=="),
    ("fo", "Zm8="),
    ("foo", "Zm9v"),
    ("foob", "Zm9vYg=="),
    ("fooba", "Zm9vYmE="),
    ("foobar", "Zm9vYmFy"),
];

#[test]
fn base64_encode_known_vectors() {
    for (plain, encoded) in VECTORS {
        assert_eq!(base64_encode(plain.as_bytes()), encoded);
    }
}

#[test]
fn base64_decode_known_vectors() {
    for (plain, encoded) in VECTORS {
        assert_eq!(base64_decode(encoded), Ok(plain.as_bytes().to_vec()));
    }
}

#[test]
fn base64_encode_is_not_the_identity() {
    assert_eq!(base64_encode(b"Hi"), "SGk=");
    assert_ne!(base64_encode(b"Zm9v"), "Zm9v");
}

#[test]
fn base64_decode_is_not_the_identity() {
    assert_eq!(base64_decode("SGk="), Ok(b"Hi".to_vec()));
    assert_ne!(base64_decode("Zm9v"), Ok(b"Zm9v".to_vec()));
}

#[test]
fn base64_encode_uses_the_whole_alphabet() {
    assert_eq!(base64_encode(&[0xFB, 0xFF, 0xBF]), "+/+/");
    assert_eq!(base64_encode(&[0x00, 0x10, 0x83]), "ABCD");
}

#[test]
fn base64_encode_has_four_characters_for_three_bytes() {
    for len in 0..50usize {
        let bytes = vec![0xA5u8; len];
        assert_eq!(base64_encode(&bytes).len(), 4 * ((len + 2) / 3));
    }
}

#[test]
fn base64_encode_has_the_shape_of_padded_base64() {
    for len in 0..20usize {
        let bytes: Vec<u8> = (0..len).map(|i| (i * 37 + 11) as u8).collect();
        let text = base64_encode(&bytes);
        let chars: Vec<char> = text.chars().collect();
        assert_eq!(chars.len() % 4, 0);
        for (i, c) in chars.iter().enumerate() {
            let symbol = c.is_ascii_alphanumeric() || *c == '+' || *c == '/';
            assert!(symbol || (*c == '=' && i + 2 >= chars.len()));
        }
    }
}

#[test]
fn base64_decode_inverts_base64_encode() {
    let all: Vec<u8> = (0..=255u8).collect();
    for len in 0..=all.len() {
        let bytes = &all[..len];
        assert_eq!(base64_decode(&base64_encode(bytes)), Ok(bytes.to_vec()));
    }
}

#[test]
fn base64_decode_refuses_a_foreign_character() {
    for text in ["ab!d", "Zm9v\n", " Zm9", "Zm9-", "Zm9_", "Zm9é", "Zg=\n"] {
        assert_eq!(base64_decode(text), Err(CipherError::MalformedEncoding));
    }
}

#[test]
fn base64_decode_refuses_a_length_that_four_does_not_divide() {
    for text in ["Z", "Zg", "Zm8", "Zm9vY", "Zg=", "Zm9vYg="] {
        assert_eq!(base64_decode(text), Err(CipherError::MalformedEncoding));
    }
}

#[test]
fn base64_decode_refuses_misplaced_padding() {
    for text in ["=g==", "Z===", "Zg=v", "====", "Zg==Zm9v", "Zm8=Zm9v"] {
        assert_eq!(base64_decode(text), Err(CipherError::MalformedEncoding));
    }
}

#[test]
fn base64_decode_refuses_bits_that_no_byte_takes() {
    // "Zg==" is canonical; "Zh==" carries a set bit beyond the one byte.
    assert_eq!(base64_decode("Zh=="), Err(CipherError::MalformedEncoding));
    assert_eq!(base64_decode("Zm9="), Err(CipherError::MalformedEncoding));
}

#[test]
fn can_encode_small_lengths() {
    assert!(can_encode(0));
    assert!(can_encode(1));
    assert!(can_encode(1_000_000));
}

#[test]
fn can_encode_ends_where_the_encoded_length_overflows() {
    let groups = usize::MAX / 4;
    assert!(can_encode(groups * 3));
    assert!(!can_encode(groups * 3 + 1));
    assert!(!can_encode(usize::MAX));
}

/// Whether the text consists of groups of four characters, each a symbol of
/// the alphabet, but that the last two may be `=`, the last alone or both.
fn in_shape(text: &str) -> bool {
    let chars: Vec<char> = text.chars().collect();
    let len = chars.len();
    let symbol = |c: char| c.is_ascii_alphanumeric() || c == '+' || c == '/';
    len % 4 == 0
        && chars.iter().enumerate().all(|(i, &c)| symbol(c) || (c == '=' && i + 2 >= len))
        && !(len >= 2 && chars[len - 2] == '=' && chars[len - 1] != '=')
}

/// Every text of `len` characters over the given characters.
fn texts_over(chars: &[char], len: usize) -> Vec<String> {
    let mut texts = vec![String::new()];
    for _ in 0..len {
        let mut longer = Vec::with_capacity(texts.len() * chars.len());
        for text in &texts {
            for &c in chars {
                let mut next = text.clone();
                next.push(c);
                longer.push(next);
            }
        }
        texts = longer;
    }
    texts
}

#[test]
fn base64_decode_accepts_only_short_text_in_shape() {
    let chars = ['A', 'Q', 'w', '/', '=', '!', 'é'];
    for len in 0..=5 {
        for text in texts_over(&chars, len) {
            if base64_decode(&text).is_ok() {
                assert!(in_shape(&text), "accepted {text:?}");
            }
        }
    }
}

#[test]
fn base64_decode_accepts_only_long_text_in_shape() {
    let bytes: Vec<u8> = (0..90u8).collect();
    let encoded: Vec<char> = base64_encode(&bytes).chars().collect();
    assert_eq!(encoded.len(), 120);
    for at in 0..encoded.len() {
        for put in ['=', '!', '\n', 'é', 'A'] {
            let mut changed = encoded.clone();
            changed[at] = put;
            let text: String = changed.into_iter().collect();
            if base64_decode(&text).is_ok() {
                assert!(in_shape(&text), "accepted {text:?}");
            }
        }
    }
    for cut in 0..encoded.len() {
        let text: String = encoded[..cut].iter().collect();
        assert_eq!(base64_decode(&text).is_ok(), cut % 4 == 0, "cut at {cut}");
    }
}

#[test]
fn base64_decode_accepts_padding_only_at_the_end() {
    assert_eq!(base64_decode("Zg=="), Ok(b"f".to_vec()));
    assert_eq!(base64_decode("Zm8="), Ok(b"fo".to_vec()));
    assert_eq!(base64_decode("Zm9vZg=="), Ok(b"foof".to_vec()));
}
