use md2::checksum::append_checksum;
use md2::compress::{compress, compress_block, mix_round};
use md2::padding::padding;
use md2::table::{substitute, PI_SUBST};

#[test]
fn padding_of_empty_input_is_sixteen_sixteens() {
    assert_eq!(padding(&[]), vec![16u8; 16]);
}

#[test]
fn padding_adds_sixteen_minus_remainder() {
    for len in 0..100usize {
        let input: Vec<u8> = (0..len).map(|i| (i * 3) as u8).collect();
        let out = padding(&input);
        let pad = 16 - len % 16;
        assert!(1 <= pad && pad <= 16);
        assert_eq!(out.len(), len + pad);
        assert_eq!(out.len() % 16, 0);
        assert_eq!(&out[..len], &input[..]);
        assert!(out[len..].iter().all(|&b| b as usize == pad));
    }
}

#[test]
fn padding_of_aligned_input_is_a_full_block() {
    let input = [9u8; 32];
    let out = padding(&input);
    assert_eq!(out.len(), 48);
    assert_eq!(&out[32..], &[16u8; 16]);
}

#[test]
fn padding_exact_values() {
    assert_eq!(
        padding(b"abc"),
        vec![97, 98, 99, 13, 13, 13, 13, 13, 13, 13, 13, 13, 13, 13, 13, 13]
    );
    let fifteen = [1u8; 15];
    let mut expected = fifteen.to_vec();
    expected.push(1);
    assert_eq!(padding(&fifteen), expected);
}

#[test]
fn padding_twice_adds_another_block() {
    let once = padding(b"message digest");
    let twice = padding(&once);
    assert_eq!(once.len(), 16);
    assert_eq!(twice.len(), 32);
    assert_eq!(&twice[16..], &[16u8; 16]);
}

#[test]
fn checksum_of_padded_empty_input() {
    let mut buffer = padding(&[]);
    append_checksum(&mut buffer);
    assert_eq!(buffer.len(), 32);
    assert_eq!(&buffer[..16], &[16u8; 16]);
    assert_eq!(
        &buffer[16..],
        &[98, 56, 103, 182, 175, 82, 121, 94, 95, 33, 78, 151, 32, 190, 234, 141]
    );
}

#[test]
fn checksum_of_padded_abc() {
    let mut buffer = padding(b"abc");
    append_checksum(&mut buffer);
    assert_eq!(
        &buffer[16..],
        &[25, 226, 157, 27, 115, 4, 54, 142, 89, 90, 39, 111, 48, 47, 87, 204]
    );
}

#[test]
fn checksum_over_two_blocks_carries_the_running_byte() {
    let mut buffer: Vec<u8> = (0u8..32).collect();
    append_checksum(&mut buffer);
    assert_eq!(buffer.len(), 48);
    assert_eq!(&buffer[..32], &(0u8..32).collect::<Vec<u8>>()[..]);
    assert_eq!(
        &buffer[32..],
        &[154, 101, 182, 81, 178, 58, 138, 64, 53, 138, 27, 41, 158, 89, 63, 30]
    );
    // The second block read alone gives another checksum.
    let mut second: Vec<u8> = (16u8..32).collect();
    append_checksum(&mut second);
    assert_eq!(
        &second[16..],
        &[98, 210, 106, 252, 166, 110, 118, 25, 46, 73, 154, 157, 157, 69, 231, 219]
    );
}

#[test]
fn checksum_of_one_block() {
    let mut buffer: Vec<u8> = (0u8..16).collect();
    append_checksum(&mut buffer);
    assert_eq!(
        &buffer[16..],
        &[41, 103, 165, 175, 206, 8, 6, 46, 224, 119, 116, 241, 17, 188, 13, 67]
    );
}

#[test]
fn checksum_does_not_read_a_trailing_partial_block() {
    let mut buffer: Vec<u8> = (0u8..40).collect();
    append_checksum(&mut buffer);
    assert_eq!(buffer.len(), 56);
    assert_eq!(
        &buffer[40..],
        &[154, 101, 182, 81, 178, 58, 138, 64, 53, 138, 27, 41, 158, 89, 63, 30]
    );
    let mut short = vec![1u8, 2, 3];
    append_checksum(&mut short);
    assert_eq!(short.len(), 19);
    assert_eq!(&short[..3], &[1, 2, 3]);
    assert_eq!(&short[3..], &[0u8; 16]);
    let mut empty: Vec<u8> = Vec::new();
    append_checksum(&mut empty);
    assert_eq!(empty, vec![0u8; 16]);
}

#[test]
fn checksum_hands_back_the_same_buffer() {
    let mut buffer = padding(b"abc");
    let out = append_checksum(&mut buffer);
    out.push(1);
    assert_eq!(buffer.len(), 33);
    assert_eq!(buffer[32], 1);
}

#[test]
fn checksum_changes_with_any_single_byte() {
    let base = padding(b"0123456789abcdef0123456789");
    let mut with_base = base.clone();
    append_checksum(&mut with_base);
    for position in 0..base.len() {
        let mut changed = base.clone();
        changed[position] ^= 0x40;
        append_checksum(&mut changed);
        assert_ne!(&changed[base.len()..], &with_base[base.len()..]);
    }
}

#[test]
fn checksum_changes_with_byte_order() {
    let mut forward = padding(b"ab");
    let mut backward = padding(b"ba");
    append_checksum(&mut forward);
    append_checksum(&mut backward);
    assert_ne!(&forward[16..], &backward[16..]);
}

#[test]
fn table_entries() {
    assert_eq!(substitute(0), 41);
    assert_eq!(substitute(1), 46);
    assert_eq!(substitute(41), 66);
    assert_eq!(substitute(100), 72);
    assert_eq!(substitute(255), 20);
    for b in 0u8..=255 {
        assert_eq!(substitute(b), PI_SUBST[b as usize]);
    }
}

#[test]
fn table_is_a_permutation() {
    let mut seen = [false; 256];
    for b in 0u8..=255 {
        let v = substitute(b) as usize;
        assert!(!seen[v]);
        seen[v] = true;
    }
    assert!(seen.iter().all(|&s| s));
}

#[test]
fn mix_round_on_zero_state() {
    let mut state = [0u8; 48];
    let last = mix_round(&mut state, 0);
    assert_eq!(
        state,
        [
            41, 66, 121, 252, 159, 15, 19, 243, 180, 133, 113, 184, 211, 139, 101, 165, 81, 127,
            241, 68, 21, 199, 250, 141, 45, 23, 140, 230, 208, 120, 118, 125, 116, 150, 185, 223,
            57, 251, 51, 214, 232, 166, 175, 38, 224, 242, 80, 128
        ]
    );
    assert_eq!(last, 128);
}

#[test]
fn mix_round_with_a_carry() {
    let mut state = [0u8; 48];
    for (k, byte) in state.iter_mut().enumerate() {
        *byte = k as u8;
    }
    let last = mix_round(&mut state, 7);
    assert_eq!(
        state,
        [
            1, 47, 16, 97, 29, 73, 196, 107, 34, 94, 157, 75, 133, 124, 146, 42, 127, 224, 224,
            225, 251, 38, 246, 8, 37, 205, 167, 33, 135, 61, 49, 81, 95, 34, 117, 135, 4, 135, 6,
            91, 207, 99, 153, 109, 122, 70, 41, 109
        ]
    );
    assert_eq!(last, 109);
}

#[test]
fn compress_block_from_zero_state() {
    let mut state = [0u8; 48];
    let mut block = [0u8; 16];
    for (k, byte) in block.iter_mut().enumerate() {
        *byte = k as u8;
    }
    compress_block(&mut state, &block);
    assert_eq!(
        state,
        [
            195, 29, 150, 208, 178, 135, 124, 124, 220, 150, 224, 21, 157, 145, 122, 148, 185,
            226, 120, 146, 243, 134, 4, 243, 232, 162, 151, 35, 196, 99, 79, 224, 231, 105, 250,
            2, 67, 170, 138, 137, 47, 213, 242, 236, 22, 54, 149, 83
        ]
    );
}

#[test]
fn compress_block_of_padding_only() {
    let mut state = [0u8; 48];
    compress_block(&mut state, &[16u8; 16]);
    assert_eq!(
        state,
        [
            49, 193, 126, 94, 153, 77, 28, 112, 229, 114, 199, 141, 148, 248, 249, 154, 124, 131,
            235, 69, 244, 50, 230, 136, 110, 226, 88, 49, 37, 87, 191, 253, 16, 91, 238, 221, 103,
            159, 225, 219, 50, 114, 43, 26, 196, 119, 11, 70
        ]
    );
}

#[test]
fn compress_two_blocks() {
    let data: Vec<u8> = (0u8..32).collect();
    assert_eq!(
        compress(&data),
        [15, 176, 235, 10, 130, 39, 28, 179, 103, 1, 155, 64, 152, 181, 18, 160]
    );
}

#[test]
fn compress_one_block_is_the_first_third_of_the_state() {
    let data: Vec<u8> = (0u8..16).collect();
    assert_eq!(
        compress(&data),
        [195, 29, 150, 208, 178, 135, 124, 124, 220, 150, 224, 21, 157, 145, 122, 148]
    );
}

#[test]
fn compress_starts_each_block_with_a_zero_carry() {
    // Absorbing block by block through `compress_block`, which starts its
    // rounds from a zero carry, gives what `compress` gives over the buffer.
    let data: Vec<u8> = (0u8..48).map(|b| b.wrapping_mul(37)).collect();
    let mut state = [0u8; 48];
    for chunk in data.chunks(16) {
        let mut block = [0u8; 16];
        block.copy_from_slice(chunk);
        compress_block(&mut state, &block);
    }
    assert_eq!(compress(&data), state[..16]);
}

#[test]
fn compress_does_not_read_a_trailing_partial_block() {
    let data: Vec<u8> = (0u8..40).collect();
    assert_eq!(
        compress(&data),
        [15, 176, 235, 10, 130, 39, 28, 179, 103, 1, 155, 64, 152, 181, 18, 160]
    );
    assert_eq!(compress(&[]), [0u8; 16]);
    assert_eq!(compress(&[1, 2, 3]), [0u8; 16]);
}
