use uuidgen::{gen_uuids, Uuid};

fn is_canonical_v4(s: &str) -> bool {
    let c: Vec<char> = s.chars().collect();
    if c.len() != 36 {
        return false;
    }
    for (i, ch) in c.iter().enumerate() {
        let ok = if [8, 13, 18, 23].contains(&i) {
            *ch == '-'
        } else {
            ch.is_ascii_digit() || ('a'..='f').contains(ch)
        };
        if !ok {
            return false;
        }
    }
    c[14] == '4' && ['8', '9', 'a', 'b'].contains(&c[19])
}

#[test]
fn gen_uuids_by_cnt() {
    let actual = gen_uuids(2);
    assert_eq!(actual.len(), 2);
}

#[test]
fn generated_count_and_text_form() {
    for n in [0u8, 1, 2, 20, 255] {
        let ids = gen_uuids(n);
        assert_eq!(ids.len(), n as usize);
        for id in &ids {
            assert_eq!(id.bytes[6] & 0xf0, 0x40);
            assert_eq!(id.bytes[8] & 0xc0, 0x80);
            let text = id.to_hyphenated();
            assert!(is_canonical_v4(&text), "{text}");
        }
    }
}

#[test]
fn zero_count_is_empty() {
    assert!(gen_uuids(0).is_empty());
}

#[test]
fn successive_calls_differ() {
    let a = gen_uuids(20);
    let b = gen_uuids(20);
    assert_ne!(a, b);
    let c = gen_uuids(1);
    let d = gen_uuids(1);
    assert_ne!(c, d);
}

#[test]
fn new_v4_sets_version_and_variant() {
    for _ in 0..100 {
        let id = Uuid::new_v4();
        assert_eq!(id.bytes[6] >> 4, 4);
        assert_eq!(id.bytes[8] >> 6, 2);
    }
}

#[test]
fn hyphenated_text_of_known_bytes() {
    let id = Uuid {
        bytes: [
            0xf4, 0x7a, 0xc1, 0x0b, 0x58, 0xcc, 0x43, 0x72, 0xa5, 0x67, 0x0e, 0x02, 0xb2, 0xc3,
            0xd4, 0x79,
        ],
    };
    assert_eq!(id.to_hyphenated(), "f47ac10b-58cc-4372-a567-0e02b2c3d479");
    let zero = Uuid { bytes: [0u8; 16] };
    assert_eq!(zero.to_hyphenated(), "00000000-0000-0000-0000-000000000000");
    assert!(!is_canonical_v4(&zero.to_hyphenated()));
    let ones = Uuid { bytes: [0xffu8; 16] };
    assert_eq!(ones.to_hyphenated(), "ffffffff-ffff-ffff-ffff-ffffffffffff");
}
