use series25::Status;

#[test]
fn decode_named_regions() {
    let status = Status::from_bits_truncate(0b1000_0011);
    assert!(status.is_busy());
    assert!(status.is_write_enabled());
    assert_eq!(status.protection(), 0);
    assert!(status.is_write_disabled());
    assert_eq!(status.bits(), 0b1000_0011);
    assert!(status.contains(Status::BUSY));
    assert!(status.contains(Status::WEL));
    assert!(status.contains(Status::SRWD));
    assert!(status.contains(Status::BUSY | Status::WEL | Status::SRWD));
    assert!(!status.contains(Status::PROT));
}

#[test]
fn decode_drops_reserved_bits() {
    let status = Status::from_bits_truncate(0b1110_0011);
    assert_eq!(status.bits(), 0b1000_0011);
    assert_eq!(status, Status::from_bits_truncate(0b1000_0011));
    assert_eq!(Status::from_bits_truncate(0xFF).bits(), 0x9F);
    assert_eq!(Status::from_bits_truncate(0x60).bits(), 0x00);
}

#[test]
fn protection_is_bits_two_to_four() {
    for raw in 0..=255u8 {
        let status = Status::from_bits_truncate(raw);
        assert_eq!(status.protection(), (raw >> 2) & 0x07);
        assert_eq!(status.is_busy(), raw & 0x01 != 0);
        assert_eq!(status.is_write_enabled(), raw & 0x02 != 0);
        assert_eq!(status.is_write_disabled(), raw & 0x80 != 0);
        assert_eq!(status.bits(), raw & 0x9F);
    }
    assert_eq!(Status::from_bits_truncate(0b0001_0100).protection(), 0b101);
    assert_eq!(Status::from_bits_truncate(0b0001_1100).protection(), 7);
}

#[test]
fn idle_status() {
    let status = Status::from_bits_truncate(0x00);
    assert!(!status.is_busy());
    assert!(!status.is_write_enabled());
    assert!(!status.is_write_disabled());
    assert_eq!(status.protection(), 0);
    assert!(status.contains(0));
}

#[test]
fn contains_asks_for_every_bit_of_the_mask() {
    let status = Status::from_bits_truncate(0b0000_1100);
    assert!(!status.contains(Status::PROT));
    assert!(status.contains(0b0000_1100));
    assert!(status.contains(0b0000_0100));
    assert!(!status.contains(Status::BUSY));
}

#[test]
fn from_bits_refuses_reserved_bits() {
    assert_eq!(Status::from_bits(0b1000_0011), Some(Status::from_bits_truncate(0b1000_0011)));
    assert_eq!(Status::from_bits(0x9F).map(|s| s.bits()), Some(0x9F));
    assert_eq!(Status::from_bits(0x00).map(|s| s.bits()), Some(0x00));
    assert_eq!(Status::from_bits(0b0010_0000), None);
    assert_eq!(Status::from_bits(0b0100_0001), None);
    assert_eq!(Status::from_bits(0xFF), None);
}

#[test]
fn named_masks() {
    assert_eq!(Status::BUSY, 0b0000_0001);
    assert_eq!(Status::WEL, 0b0000_0010);
    assert_eq!(Status::PROT, 0b0001_1100);
    assert_eq!(Status::SRWD, 0b1000_0000);
    assert_eq!(Status::ALL, Status::BUSY | Status::WEL | Status::PROT | Status::SRWD);
}
