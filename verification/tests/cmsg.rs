use linux_raw_sys::cmsg::{
    Cmsghdr, Msghdr, CMSGHDR_SIZE, CMSG_ALIGN, CMSG_DATA, CMSG_FIRSTHDR, CMSG_LEN, CMSG_NXTHDR,
    CMSG_SPACE,
};

#[test]
fn align_exact_values() {
    assert_eq!(CMSG_ALIGN(0), 0);
    assert_eq!(CMSG_ALIGN(1), 8);
    assert_eq!(CMSG_ALIGN(7), 8);
    assert_eq!(CMSG_ALIGN(8), 8);
    assert_eq!(CMSG_ALIGN(9), 16);
    assert_eq!(CMSG_ALIGN(20), 24);
}

#[test]
fn align_idempotent_and_never_shrinks() {
    for len in [0u32, 1, 3, 7, 8, 12, 16, 20, 100, 1000, 4096] {
        let once = CMSG_ALIGN(len);
        assert_eq!(CMSG_ALIGN(once), once);
        assert!(once >= len);
        assert_eq!(once % 8, 0);
    }
}

#[test]
fn space_is_header_plus_aligned_payload() {
    for len in [0u32, 1, 4, 7, 8, 20, 100] {
        assert_eq!(CMSG_SPACE(len), CMSGHDR_SIZE + CMSG_ALIGN(len));
    }
    assert_eq!(CMSG_SPACE(0), 16);
    assert_eq!(CMSG_SPACE(4), 24);
    assert_eq!(CMSG_SPACE(20), 40);
}

#[test]
fn len_is_header_plus_unaligned_payload() {
    assert_eq!(CMSG_LEN(0), 16);
    assert_eq!(CMSG_LEN(4), 20);
    assert_eq!(CMSG_LEN(20), 36);
}

#[test]
fn data_follows_header() {
    assert_eq!(CMSG_DATA(4096), 4096 + 16);
}

#[test]
fn first_header_rejects_short_buffer() {
    for controllen in 0..16u64 {
        let mhdr = Msghdr { msg_control: 4096, msg_controllen: controllen };
        assert_eq!(CMSG_FIRSTHDR(&mhdr), None);
    }
}

#[test]
fn first_header_rejects_absent_buffer() {
    let mhdr = Msghdr { msg_control: 0, msg_controllen: 64 };
    assert_eq!(CMSG_FIRSTHDR(&mhdr), None);
}

#[test]
fn first_header_returns_buffer_base() {
    let mhdr = Msghdr { msg_control: 4096, msg_controllen: 16 };
    assert_eq!(CMSG_FIRSTHDR(&mhdr), Some(4096));
}

#[test]
fn single_record_spanning_buffer_ends_traversal() {
    // One valid record whose declared length equals the buffer length.
    let mhdr = Msghdr { msg_control: 4096, msg_controllen: 24 };
    let only = Cmsghdr { cmsg_len: 24, cmsg_level: 1, cmsg_type: 2 };
    assert_eq!(CMSG_FIRSTHDR(&mhdr), Some(4096));
    assert_eq!(CMSG_NXTHDR(&mhdr, 4096, &only), None);

    let mhdr = Msghdr { msg_control: 8192, msg_controllen: 16 };
    let only = Cmsghdr { cmsg_len: 16, cmsg_level: 1, cmsg_type: 2 };
    assert_eq!(CMSG_NXTHDR(&mhdr, 8192, &only), None);
}

#[test]
fn back_to_back_records_traverse_in_order() {
    // Two 16-byte records, the second starting exactly where the first
    // record's aligned length ends.
    let mhdr = Msghdr { msg_control: 4096, msg_controllen: 32 };
    let first = Cmsghdr { cmsg_len: 16, cmsg_level: 1, cmsg_type: 2 };
    let second = Cmsghdr { cmsg_len: 16, cmsg_level: 1, cmsg_type: 3 };
    assert_eq!(CMSG_FIRSTHDR(&mhdr), Some(4096));
    assert_eq!(CMSG_NXTHDR(&mhdr, 4096, &first), Some(4112));
    assert_eq!(CMSG_NXTHDR(&mhdr, 4112, &second), None);
}

#[test]
fn malformed_record_ends_traversal_regardless_of_room() {
    // A record shorter than its own header is malformed even with plenty of
    // buffer left after it.
    let mhdr = Msghdr { msg_control: 4096, msg_controllen: 1024 };
    for cmsg_len in 0..16u64 {
        let bad = Cmsghdr { cmsg_len, cmsg_level: 1, cmsg_type: 2 };
        assert_eq!(CMSG_NXTHDR(&mhdr, 4096, &bad), None);
    }
}

#[test]
fn traversal_of_32_byte_buffer_with_20_byte_record() {
    // A 32-byte buffer whose first record declares 20 bytes: the aligned
    // length ends at offset 24, so only 8 bytes remain. No whole header fits
    // there, and the step also re-checks the first record's aligned length
    // past the candidate, so traversal yields the first record and then
    // stops.
    let base = 4096u64;
    let mhdr = Msghdr { msg_control: base, msg_controllen: 32 };
    let first = Cmsghdr { cmsg_len: 20, cmsg_level: 1, cmsg_type: 2 };

    let mut visited: Vec<u64> = Vec::new();
    let mut cursor = CMSG_FIRSTHDR(&mhdr);
    while let Some(addr) = cursor {
        visited.push(addr);
        // In a real buffer the header would be read back from `addr`; here
        // the only record the buffer holds is `first`, at the base.
        assert_eq!(addr, base);
        cursor = CMSG_NXTHDR(&mhdr, addr, &first);
    }
    assert_eq!(visited, vec![base]);
}

#[test]
fn traversal_visits_three_records_then_stops() {
    // Three 16-byte records in a 48-byte buffer, visited in order.
    let base = 65536u64;
    let mhdr = Msghdr { msg_control: base, msg_controllen: 48 };
    let headers = [
        Cmsghdr { cmsg_len: 16, cmsg_level: 1, cmsg_type: 10 },
        Cmsghdr { cmsg_len: 16, cmsg_level: 1, cmsg_type: 11 },
        Cmsghdr { cmsg_len: 16, cmsg_level: 1, cmsg_type: 12 },
    ];
    let mut visited: Vec<u64> = Vec::new();
    let mut cursor = CMSG_FIRSTHDR(&mhdr);
    while let Some(addr) = cursor {
        let idx = ((addr - base) / 16) as usize;
        visited.push(addr);
        cursor = CMSG_NXTHDR(&mhdr, addr, &headers[idx]);
    }
    assert_eq!(visited, vec![base, base + 16, base + 32]);
}
