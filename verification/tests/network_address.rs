use cch24::utils::network_address::{IPv4Addr, IPv6Addr};

fn v4(octets: [u8; 4]) -> IPv4Addr {
    IPv4Addr::new(octets)
}

#[test]
fn octets_come_back_as_given() {
    assert_eq!(v4([10, 0, 0, 1]).octets(), [10, 0, 0, 1]);
    let segments = [0xfe80, 0, 0, 0, 0, 0, 0, 1];
    assert_eq!(IPv6Addr::new(segments).segments(), segments);
}

#[test]
fn wrapping_add_adds_octet_by_octet() {
    let sum = v4([10, 0, 0, 0]).wrapping_add(&v4([1, 2, 3, 255])).unwrap();
    assert_eq!(sum.octets(), [11, 2, 3, 255]);
    let sum = v4([128, 128, 33, 0]).wrapping_add(&v4([255, 0, 255, 33])).unwrap();
    assert_eq!(sum.octets(), [127, 128, 32, 33]);
}

#[test]
fn wrapping_add_wraps_without_carry() {
    let sum = v4([255, 255, 255, 255]).wrapping_add(&v4([1, 2, 255, 0])).unwrap();
    assert_eq!(sum.octets(), [0, 1, 254, 255]);
    let sum = v4([0, 0, 0, 0]).wrapping_add(&v4([0, 0, 0, 0])).unwrap();
    assert_eq!(sum.octets(), [0, 0, 0, 0]);
}

#[test]
fn wrapping_sub_takes_the_receiver_from_the_argument() {
    let key = v4([10, 0, 0, 0]).wrapping_sub(&v4([11, 2, 3, 255])).unwrap();
    assert_eq!(key.octets(), [1, 2, 3, 255]);
    let key = v4([128, 128, 33, 0]).wrapping_sub(&v4([127, 128, 32, 33])).unwrap();
    assert_eq!(key.octets(), [255, 0, 255, 33]);
    let key = v4([1, 0, 200, 7]).wrapping_sub(&v4([0, 0, 100, 7])).unwrap();
    assert_eq!(key.octets(), [255, 0, 156, 0]);
}

#[test]
fn wrapping_sub_undoes_wrapping_add() {
    let samples = [
        ([0u8, 0, 0, 0], [0u8, 0, 0, 0]),
        ([255, 255, 255, 255], [255, 255, 255, 255]),
        ([10, 0, 0, 0], [1, 2, 3, 255]),
        ([200, 100, 50, 25], [100, 200, 250, 255]),
    ];
    for (from, key) in samples {
        let to = v4(from).wrapping_add(&v4(key)).unwrap();
        assert_eq!(v4(from).wrapping_sub(&to).unwrap().octets(), key);
        assert_eq!(v4(from).wrapping_add(&v4(from).wrapping_sub(&to).unwrap()).unwrap(), to);
    }
}

#[test]
fn xor_works_segment_by_segment() {
    let from = IPv6Addr::new([0xfe80, 0, 0, 0, 0, 0, 0, 1]);
    let key = IPv6Addr::new([5, 6, 7, 0, 0, 0, 0, 0x3333]);
    assert_eq!(from.xor(&key).segments(), [0xfe85, 6, 7, 0, 0, 0, 0, 0x3332]);
    let from = IPv6Addr::new([0xaaaa, 0xffff, 0xc, 0, 0, 0xc, 0x1234, 0x5678]);
    let key = IPv6Addr::new([0xfeed, 0xc0de, 0xd1e, 0xa11, 0, 0, 0, 0]);
    assert_eq!(
        from.xor(&key).segments(),
        [0x5447, 0x3f21, 0xd12, 0xa11, 0, 0xc, 0x1234, 0x5678]
    );
}

#[test]
fn xor_twice_gives_the_address_back() {
    let from = IPv6Addr::new([0xfe80, 1, 2, 3, 0xffff, 0, 0x8000, 1]);
    let key = IPv6Addr::new([5, 6, 7, 0xffff, 0xffff, 0, 1, 0x3333]);
    let to = from.xor(&key);
    assert_eq!(to.xor(&key), from);
    assert_eq!(from.xor(&to), key);
    assert_eq!(from.xor(&from).segments(), [0; 8]);
}
