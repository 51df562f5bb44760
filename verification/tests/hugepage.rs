use kernel_regions::{HugePageBytes, HugePageBytesError, HugePageChoice, MapReply, UnmapReply};

const BASE: usize = 0x7f00_4000_0000;

fn all_choices() -> Vec<HugePageChoice> {
    vec![
        HugePageChoice::HUGE_64KB,
        HugePageChoice::HUGE_512KB,
        HugePageChoice::HUGE_1MB,
        HugePageChoice::HUGE_2MB,
        HugePageChoice::HUGE_8MB,
        HugePageChoice::HUGE_16MB,
        HugePageChoice::HUGE_32MB,
        HugePageChoice::HUGE_256MB,
        HugePageChoice::HUGE_512MB,
        HugePageChoice::HUGE_1GB,
        HugePageChoice::HUGE_2GB,
        HugePageChoice::HUGE_16GB,
    ]
}

fn mapped(choice: HugePageChoice) -> HugePageBytes {
    assert!(choice.is_addressable());
    match HugePageBytes::new(choice, MapReply { addr: BASE, os_error: 0 }) {
        Ok(region) => region,
        Err(e) => panic!("a mapped address was refused: {:?}", e),
    }
}

#[test]
fn magnitudes_are_the_named_sizes() {
    assert_eq!(HugePageChoice::HUGE_64KB.as_libc_usize(), 65_536);
    assert_eq!(HugePageChoice::HUGE_512KB.as_libc_usize(), 524_288);
    assert_eq!(HugePageChoice::HUGE_1MB.as_libc_usize(), 1_048_576);
    assert_eq!(HugePageChoice::HUGE_2MB.as_libc_usize(), 2_097_152);
    assert_eq!(HugePageChoice::HUGE_8MB.as_libc_usize(), 8_388_608);
    assert_eq!(HugePageChoice::HUGE_16MB.as_libc_usize(), 16_777_216);
    assert_eq!(HugePageChoice::HUGE_32MB.as_libc_usize(), 33_554_432);
    assert_eq!(HugePageChoice::HUGE_256MB.as_libc_usize(), 268_435_456);
    assert_eq!(HugePageChoice::HUGE_512MB.as_libc_usize(), 536_870_912);
    assert_eq!(HugePageChoice::HUGE_1GB.as_libc_usize(), 1_073_741_824);
    assert_eq!(HugePageChoice::HUGE_2GB.as_libc_usize(), 2_147_483_648);
    assert_eq!(HugePageChoice::HUGE_16GB.as_libc_usize(), 17_179_869_184);
}

#[test]
fn flags_are_those_of_libc() {
    assert_eq!(HugePageChoice::HUGE_64KB.as_libc_flag(), libc::MAP_HUGE_64KB);
    assert_eq!(HugePageChoice::HUGE_512KB.as_libc_flag(), libc::MAP_HUGE_512KB);
    assert_eq!(HugePageChoice::HUGE_1MB.as_libc_flag(), libc::MAP_HUGE_1MB);
    assert_eq!(HugePageChoice::HUGE_2MB.as_libc_flag(), libc::MAP_HUGE_2MB);
    assert_eq!(HugePageChoice::HUGE_8MB.as_libc_flag(), libc::MAP_HUGE_8MB);
    assert_eq!(HugePageChoice::HUGE_16MB.as_libc_flag(), libc::MAP_HUGE_16MB);
    assert_eq!(HugePageChoice::HUGE_32MB.as_libc_flag(), libc::MAP_HUGE_32MB);
    assert_eq!(HugePageChoice::HUGE_256MB.as_libc_flag(), libc::MAP_HUGE_256MB);
    assert_eq!(HugePageChoice::HUGE_512MB.as_libc_flag(), libc::MAP_HUGE_512MB);
    assert_eq!(HugePageChoice::HUGE_1GB.as_libc_flag(), libc::MAP_HUGE_1GB);
    assert_eq!(HugePageChoice::HUGE_2GB.as_libc_flag(), libc::MAP_HUGE_2GB);
    assert_eq!(HugePageChoice::HUGE_16GB.as_libc_flag(), libc::MAP_HUGE_16GB);
}

#[test]
fn flags_have_their_exact_values() {
    assert_eq!(HugePageChoice::HUGE_64KB.as_libc_flag(), 1_073_741_824);
    assert_eq!(HugePageChoice::HUGE_2MB.as_libc_flag(), 1_409_286_144);
    assert_eq!(HugePageChoice::HUGE_1GB.as_libc_flag(), 2_013_265_920);
    assert_eq!(HugePageChoice::HUGE_2GB.as_libc_flag(), 2_080_374_784);
    assert_eq!(HugePageChoice::HUGE_16GB.as_libc_flag(), -2_013_265_920);
}

#[test]
fn flag_encodes_the_logarithm_of_the_magnitude() {
    for choice in all_choices() {
        let bits = choice.as_libc_flag() as u32;
        let exponent = (bits >> libc::MAP_HUGE_SHIFT) & (libc::MAP_HUGE_MASK as u32);
        assert_eq!(1u64 << exponent, choice.as_libc_usize() as u64);
        assert_eq!(bits & 0x03ff_ffff, 0);
    }
}

#[test]
fn classes_share_no_flag_and_no_magnitude() {
    let all = all_choices();
    for (i, a) in all.iter().enumerate() {
        for b in all.iter().skip(i + 1) {
            assert_ne!(a.as_libc_flag(), b.as_libc_flag());
            assert_ne!(a.as_libc_usize(), b.as_libc_usize());
        }
    }
}

#[test]
fn every_class_is_addressable_with_64_bit_addresses() {
    for choice in all_choices() {
        assert!(choice.is_addressable());
    }
}

#[test]
fn huge_request_for_2mb() {
    let req = HugePageBytes::map_request(HugePageChoice::HUGE_2MB);
    assert_eq!(req.len, 2_097_152);
    assert_eq!(req.prot, 3);
    assert_eq!(req.flags, 0x0004_8022 | (21 << 26));
    assert_eq!(
        req.flags,
        libc::MAP_PRIVATE
            | libc::MAP_ANONYMOUS
            | libc::MAP_HUGETLB
            | libc::MAP_POPULATE
            | libc::MAP_HUGE_2MB
    );
    assert_eq!(req.fd, -1);
    assert_eq!(req.offset, 0);
}

#[test]
fn huge_request_pairs_length_and_flag_for_every_class() {
    for choice in all_choices() {
        let req = HugePageBytes::map_request(choice);
        assert_eq!(req.len, choice.as_libc_usize());
        assert_eq!(req.flags & 0x03ff_ffff, 0x0004_8022);
        let exponent = ((req.flags as u32) >> 26) & 0x3f;
        assert_eq!(1u64 << exponent, req.len as u64);
        assert_eq!(req.prot, libc::PROT_READ | libc::PROT_WRITE);
        assert_eq!(req.fd, -1);
        assert_eq!(req.offset, 0);
    }
}

#[test]
fn capacity_is_the_magnitude_of_the_class() {
    assert_eq!(mapped(HugePageChoice::HUGE_64KB).capacity(), 65_536);
    assert_eq!(mapped(HugePageChoice::HUGE_512KB).capacity(), 524_288);
    assert_eq!(mapped(HugePageChoice::HUGE_1MB).capacity(), 1_048_576);
    assert_eq!(mapped(HugePageChoice::HUGE_2MB).capacity(), 2_097_152);
    assert_eq!(mapped(HugePageChoice::HUGE_8MB).capacity(), 8_388_608);
    assert_eq!(mapped(HugePageChoice::HUGE_16MB).capacity(), 16_777_216);
    assert_eq!(mapped(HugePageChoice::HUGE_32MB).capacity(), 33_554_432);
    assert_eq!(mapped(HugePageChoice::HUGE_256MB).capacity(), 268_435_456);
    assert_eq!(mapped(HugePageChoice::HUGE_512MB).capacity(), 536_870_912);
    assert_eq!(mapped(HugePageChoice::HUGE_1GB).capacity(), 1_073_741_824);
    assert_eq!(mapped(HugePageChoice::HUGE_2GB).capacity(), 2_147_483_648);
    assert_eq!(mapped(HugePageChoice::HUGE_16GB).capacity(), 17_179_869_184);
}

#[test]
fn huge_new_keeps_the_address() {
    let region = mapped(HugePageChoice::HUGE_2MB);
    assert_eq!(region.as_mut_ptr(), BASE);
    let req = region.unmap_request();
    assert_eq!(req.addr, BASE);
    assert_eq!(req.len, 2_097_152);
}

#[test]
fn huge_new_reports_a_class_the_kernel_refused() {
    let reply = MapReply { addr: libc::MAP_FAILED as usize, os_error: libc::ENOMEM };
    let r = HugePageBytes::new(HugePageChoice::HUGE_1GB, reply);
    match r {
        Err(HugePageBytesError::MmapFailed(e)) => assert_eq!(e, 12),
        other => panic!("expected a failed mapping, got {:?}", other),
    }
}

#[test]
fn huge_new_fails_for_every_class_on_a_failed_reply() {
    for choice in all_choices() {
        let reply = MapReply { addr: usize::MAX, os_error: libc::EINVAL };
        let r = HugePageBytes::new(choice, reply);
        assert!(matches!(r, Err(HugePageBytesError::MmapFailed(22))));
    }
}

#[test]
fn huge_release_succeeds_on_code_zero() {
    let region = mapped(HugePageChoice::HUGE_2MB);
    let r = region.try_drop(UnmapReply { code: 0, os_error: 0 });
    assert!(matches!(r, Ok(())));
}

#[test]
fn huge_failed_release_hands_the_region_back() {
    let region = mapped(HugePageChoice::HUGE_32MB);
    let before = region.unmap_request();
    let r = region.try_drop(UnmapReply { code: -1, os_error: libc::EINVAL });
    match r {
        Err(HugePageBytesError::MunmapFailed(back, e)) => {
            assert_eq!(e, 22);
            assert_eq!(back.as_mut_ptr(), BASE);
            assert_eq!(back.capacity(), 33_554_432);
            let after = back.unmap_request();
            assert_eq!(after.addr, before.addr);
            assert_eq!(after.len, before.len);
        }
        other => panic!("expected a failed release, got {:?}", other),
    }
}

#[test]
fn huge_release_can_be_tried_again() {
    let region = mapped(HugePageChoice::HUGE_2MB);
    let first = region.try_drop(UnmapReply { code: -1, os_error: libc::EINVAL });
    let back = match first {
        Err(HugePageBytesError::MunmapFailed(back, _)) => back,
        other => panic!("expected a failed release, got {:?}", other),
    };
    assert!(back.try_drop(UnmapReply { code: 0, os_error: 0 }).is_ok());
}
