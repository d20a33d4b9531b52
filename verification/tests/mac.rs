use keyed_hash::{mac, mac16, mac_into, KEY_SIZE, MAC_SIZE};

fn unhex(text: &str) -> Vec<u8> {
    let digits: Vec<u32> = text.chars().map(|c| c.to_digit(16).unwrap()).collect();
    digits.chunks(2).map(|pair| (pair[0] * 16 + pair[1]) as u8).collect()
}

fn counting_key() -> [u8; KEY_SIZE] {
    let mut key = [0u8; KEY_SIZE];
    for (index, byte) in key.iter_mut().enumerate() {
        *byte = index as u8;
    }
    key
}

fn two_blocks_and_more() -> Vec<u8> {
    let mut data: Vec<u8> = Vec::new();
    for _round in 0..2 {
        for byte in 0..=255u8 {
            data.push(byte);
        }
    }
    data
}

#[test]
fn mac_of_short_message() {
    let key = [0x0bu8; KEY_SIZE];
    let tag = mac(&key, b"test").unwrap();
    assert_eq!(
        tag.to_vec(),
        unhex("9b6f181feeea3a1bc3ad55126d81273b4fe093178951e8ac044fa0a514630610")
    );
}

#[test]
fn mac_of_message_longer_than_a_block() {
    let tag = mac(&counting_key(), &two_blocks_and_more()).unwrap();
    assert_eq!(
        tag.to_vec(),
        unhex("8b7a9a9049e97cc5bccd4aca8449c66675ca9c417bc3e0d1fd85502db7232fa0")
    );
}

#[test]
fn mac_into_fills_the_buffer_with_the_tag() {
    let key = [0x0bu8; KEY_SIZE];
    let mut out = [0x55u8; KEY_SIZE];
    assert_eq!(mac_into(&mut out, &key, b"test"), Ok(()));
    assert_eq!(out, mac(&key, b"test").unwrap());
}

#[test]
fn mac16_of_short_message() {
    let key = [0x0bu8; KEY_SIZE];
    let tag = mac16(&key, b"test").unwrap();
    assert_eq!(tag.len(), MAC_SIZE);
    assert_eq!(tag.to_vec(), unhex("302a9d6f5223de950a8a38b566dbc1eb"));
}

#[test]
fn mac16_of_message_longer_than_a_block() {
    let tag = mac16(&counting_key(), &two_blocks_and_more()).unwrap();
    assert_eq!(tag.to_vec(), unhex("4cd081360b0de97b3402e643bac5cb83"));
}

#[test]
fn mac16_is_no_prefix_of_mac() {
    let keys = [[0x0bu8; KEY_SIZE], counting_key(), [0u8; KEY_SIZE]];
    let messages: [&[u8]; 3] = [b"", b"test", &[0xa5u8; 200]];
    for key in keys {
        for data in messages {
            let full = mac(&key, data).unwrap();
            let short = mac16(&key, data).unwrap();
            assert_ne!(short[..], full[..MAC_SIZE]);
        }
    }
}

#[test]
fn distinct_keys_give_distinct_tags() {
    let mut keys: Vec<[u8; KEY_SIZE]> = Vec::new();
    let mut state: u32 = 0x2545_f491;
    for _key in 0..16 {
        let mut key = [0u8; KEY_SIZE];
        for byte in key.iter_mut() {
            state = state.wrapping_mul(1_664_525).wrapping_add(1_013_904_223);
            *byte = (state >> 24) as u8;
        }
        keys.push(key);
    }
    for (i, first) in keys.iter().enumerate() {
        for second in keys.iter().skip(i + 1) {
            assert_ne!(first, second);
            assert_ne!(mac(first, b"message").unwrap(), mac(second, b"message").unwrap());
            assert_ne!(mac16(first, b"message").unwrap(), mac16(second, b"message").unwrap());
        }
    }
}

#[test]
fn keys_that_differ_in_one_bit_give_distinct_tags() {
    let key = counting_key();
    let mut other = key;
    other[31] ^= 0x80;
    assert_ne!(mac(&key, b"").unwrap(), mac(&other, b"").unwrap());
}

#[test]
fn mac_twice_gives_the_same_tag() {
    let key = counting_key();
    assert_eq!(mac(&key, b"again"), mac(&key, b"again"));
    assert_eq!(mac16(&key, b"again"), mac16(&key, b"again"));
}
