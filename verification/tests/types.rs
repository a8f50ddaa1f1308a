use netshim::{AddrFamily, Platform, Protocol, SockType};

const PLATFORMS: [Platform; 2] = [Platform::Unix, Platform::Windows];
const SOCK_TYPES: [SockType; 4] =
    [SockType::Stream, SockType::DGram, SockType::Raw, SockType::RDM];
const PROTOCOLS: [Protocol; 3] = [Protocol::ICMP, Protocol::TCP, Protocol::UDP];
const FAMILIES: [AddrFamily; 3] = [AddrFamily::Unix, AddrFamily::Inet, AddrFamily::Inet6];

#[test]
fn sock_type_table() {
    for p in PLATFORMS {
        assert_eq!(SockType::Stream.to_native(p), 1);
        assert_eq!(SockType::DGram.to_native(p), 2);
        assert_eq!(SockType::Raw.to_native(p), 3);
        assert_eq!(SockType::RDM.to_native(p), 4);
    }
}

#[test]
fn protocol_table() {
    for p in PLATFORMS {
        assert_eq!(Protocol::ICMP.to_native(p), 1);
        assert_eq!(Protocol::TCP.to_native(p), 6);
        assert_eq!(Protocol::UDP.to_native(p), 17);
    }
}

#[test]
fn addr_family_table() {
    assert_eq!(AddrFamily::Unix.to_native(Platform::Unix), 1);
    assert_eq!(AddrFamily::Inet.to_native(Platform::Unix), 2);
    assert_eq!(AddrFamily::Inet6.to_native(Platform::Unix), 10);
    assert_eq!(AddrFamily::Unix.to_native(Platform::Windows), 1);
    assert_eq!(AddrFamily::Inet.to_native(Platform::Windows), 2);
    assert_eq!(AddrFamily::Inet6.to_native(Platform::Windows), 23);
}

#[test]
fn stream_is_one_on_both_platforms() {
    assert_eq!(SockType::Stream.to_native(Platform::Unix), 1);
    assert!(SockType::Stream.eq_native(Platform::Unix, 1));

    // WinSock declares some of its constants as 16-bit unsigned numbers; the
    // comparison goes by the value, whatever the width it came in.
    let narrow: u16 = 1;
    assert_eq!(SockType::Stream.to_native(Platform::Windows), i32::from(narrow));
    assert!(SockType::Stream.eq_native(Platform::Windows, i32::from(narrow)));
}

#[test]
fn inet6_differs_between_platforms() {
    assert_eq!(AddrFamily::Inet6.to_native(Platform::Unix), 10);
    assert_eq!(AddrFamily::Inet6.to_native(Platform::Windows), 23);
    assert!(AddrFamily::Inet6.eq_native(Platform::Unix, 10));
    assert!(!AddrFamily::Inet6.eq_native(Platform::Unix, 23));
    assert!(AddrFamily::Inet6.eq_native(Platform::Windows, 23));
    assert!(!AddrFamily::Inet6.eq_native(Platform::Windows, 10));
}

#[test]
fn every_variant_equals_its_own_code() {
    for p in PLATFORMS {
        for v in SOCK_TYPES {
            assert!(v.eq_native(p, v.to_native(p)));
        }
        for v in PROTOCOLS {
            assert!(v.eq_native(p, v.to_native(p)));
        }
        for v in FAMILIES {
            assert!(v.eq_native(p, v.to_native(p)));
        }
    }
}

#[test]
fn distinct_variants_have_distinct_codes() {
    for p in PLATFORMS {
        for a in SOCK_TYPES {
            for b in SOCK_TYPES {
                assert_eq!(a == b, a.to_native(p) == b.to_native(p));
                assert_eq!(a == b, a.eq_native(p, b.to_native(p)));
            }
        }
        for a in PROTOCOLS {
            for b in PROTOCOLS {
                assert_eq!(a == b, a.to_native(p) == b.to_native(p));
                assert_eq!(a == b, a.eq_native(p, b.to_native(p)));
            }
        }
        for a in FAMILIES {
            for b in FAMILIES {
                assert_eq!(a == b, a.to_native(p) == b.to_native(p));
                assert_eq!(a == b, a.eq_native(p, b.to_native(p)));
            }
        }
    }
}

#[test]
fn unknown_codes_equal_no_variant() {
    for p in PLATFORMS {
        for code in [0, -1, 5, 7, 24, i32::MAX, i32::MIN] {
            for v in SOCK_TYPES {
                assert!(!v.eq_native(p, code));
            }
            for v in PROTOCOLS {
                assert!(!v.eq_native(p, code));
            }
            for v in FAMILIES {
                assert!(!v.eq_native(p, code));
            }
        }
    }
}

#[test]
fn only_windows_needs_startup() {
    assert!(!Platform::Unix.requires_startup());
    assert!(Platform::Windows.requires_startup());
}
