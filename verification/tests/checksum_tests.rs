use zoop_engine::checksum::{fletcher16, CHECKSUM_MODULUS};

#[test]
fn modulus_is_255() {
    assert_eq!(CHECKSUM_MODULUS, 255);
}

#[test]
fn empty_buffer_has_checksum_zero() {
    assert_eq!(fletcher16(&[]), 0);
}

#[test]
fn single_byte() {
    // sum1 = 1, sum2 = 1
    assert_eq!(fletcher16(&[1]), 0x0101);
    // sum1 = 254, sum2 = 254
    assert_eq!(fletcher16(&[254]), 0xFEFE);
}

#[test]
fn two_bytes() {
    // sum1 = 1 then 3, sum2 = 1 then 4
    assert_eq!(fletcher16(&[1, 2]), 0x0403);
}

#[test]
fn known_text_vectors() {
    assert_eq!(fletcher16(b"abcde"), 0xC8F0);
    assert_eq!(fletcher16(b"abcdef"), 0x2057);
    assert_eq!(fletcher16(b"abcdefgh"), 0x0627);
}

#[test]
fn accumulators_wrap_at_the_modulus() {
    // 200 + 100 = 300 = 45 mod 255; sum2 = 200 + 45 = 245
    assert_eq!(fletcher16(&[200, 100]), (245 << 8) | 45);
}

#[test]
fn equal_buffers_have_equal_checksums() {
    let first: Vec<u8> = (0..1000u32).map(|i| (i * 7 % 251) as u8).collect();
    let second = first.clone();
    assert_eq!(fletcher16(&first), fletcher16(&second));
    assert_eq!(fletcher16(&first), fletcher16(&first));
}

#[test]
fn order_of_bytes_matters() {
    assert_ne!(fletcher16(&[1, 2, 3]), fletcher16(&[3, 2, 1]));
}

#[test]
fn single_byte_edit_changes_checksum() {
    let buffer: Vec<u8> = (0..300u32).map(|i| (i * 13 % 256) as u8).collect();
    let checksum = fletcher16(&buffer);
    for index in 0..buffer.len() {
        for delta in [1u8, 2, 17, 128, 254] {
            let mut edited = buffer.clone();
            edited[index] = edited[index].wrapping_add(delta);
            let congruent =
                (i32::from(edited[index]) - i32::from(buffer[index])) % 255 == 0;
            if !congruent {
                assert_ne!(fletcher16(&edited), checksum);
            }
        }
    }
}

#[test]
fn zero_and_ff_are_not_told_apart() {
    assert_eq!(fletcher16(&[0x00]), fletcher16(&[0xFF]));
    assert_eq!(fletcher16(&[7, 0x00, 9]), fletcher16(&[7, 0xFF, 9]));
}

#[test]
fn long_buffer_of_ff_stays_in_range() {
    let data = vec![0xFFu8; 100_000];
    assert_eq!(fletcher16(&data), 0);
    let data = vec![0xFEu8; 1000];
    let checksum = fletcher16(&data);
    assert!(checksum & 0xFF < 255);
    assert!(checksum >> 8 < 255);
}
