use gpio_linux_char::attr::GpioLineAttr;
use gpio_linux_char::gpio_ioctl::{
    RawGpioChipInfo, RawGpioV2LineAttr, RawGpioV2LineAttrValue, RawGpioV2LineInfo,
    GPIO_MAX_NAME_SIZE, GPIO_V2_LINES_MAX, GPIO_V2_LINE_NUM_ATTRS_MAX,
};
use gpio_linux_char::{ByteOrder, GpioChipInfo, GpioError, GpioLineFlags, GpioLineInfo};
use std::time::Duration;

fn chip_bytes(name: &[u8], label: &[u8], lines: [u8; 4]) -> [u8; 68] {
    let mut buf = [0u8; 68];
    buf[..name.len()].copy_from_slice(name);
    buf[32..32 + label.len()].copy_from_slice(label);
    buf[64..68].copy_from_slice(&lines);
    buf
}

fn put_attr(buf: &mut [u8; 256], slot: usize, id: u32, payload: [u8; 8]) {
    let at = 80 + 16 * slot;
    buf[at..at + 4].copy_from_slice(&id.to_le_bytes());
    buf[at + 8..at + 16].copy_from_slice(&payload);
}

#[test]
fn layout_constants_are_consistent() {
    assert_eq!(GPIO_MAX_NAME_SIZE, 32);
    assert_eq!(GPIO_V2_LINES_MAX, 64);
    assert_eq!(GPIO_V2_LINE_NUM_ATTRS_MAX, 10);
    assert_eq!(RawGpioChipInfo::OFFSET_NAME, 0);
    assert_eq!(RawGpioChipInfo::OFFSET_LABEL, RawGpioChipInfo::OFFSET_NAME + GPIO_MAX_NAME_SIZE);
    assert_eq!(RawGpioChipInfo::OFFSET_LINES, RawGpioChipInfo::OFFSET_LABEL + GPIO_MAX_NAME_SIZE);
    assert_eq!(RawGpioChipInfo::SIZE, RawGpioChipInfo::OFFSET_LINES + 4);
    assert_eq!(
        RawGpioV2LineInfo::OFFSET_PADDING,
        RawGpioV2LineInfo::OFFSET_ATTRS + GPIO_V2_LINE_NUM_ATTRS_MAX * RawGpioV2LineAttr::SIZE
    );
    assert_eq!(RawGpioV2LineInfo::SIZE, RawGpioV2LineInfo::OFFSET_PADDING + 16);
    assert_eq!(RawGpioV2LineInfo::OFFSET_FLAGS % 8, 0);
    assert_eq!(RawGpioV2LineAttr::OFFSET_DATA % 8, 0);
}

#[test]
fn chip_info_is_read_at_its_offsets() {
    let buf = chip_bytes(b"gpiochip0", b"pinctrl-bcm2835", [54, 0, 0, 0]);
    let raw = RawGpioChipInfo::from_bytes(&buf, ByteOrder::Little);
    assert_eq!(&raw.name[..10], b"gpiochip0\0");
    assert_eq!(&raw.label[..16], b"pinctrl-bcm2835\0");
    assert_eq!(raw.lines, 54);
    assert_eq!(raw.name[..], buf[0..32]);
    assert_eq!(raw.label[..], buf[32..64]);

    let raw = RawGpioChipInfo::from_bytes(&buf, ByteOrder::Big);
    assert_eq!(raw.lines, 54 << 24);
    let buf = chip_bytes(b"gpiochip0", b"pinctrl-bcm2835", [0, 0, 0, 54]);
    assert_eq!(RawGpioChipInfo::from_bytes(&buf, ByteOrder::Big).lines, 54);
}

#[test]
fn chip_info_from_raw() {
    let buf = chip_bytes(b"gpiochip0", b"pinctrl-bcm2835", [54, 0, 0, 0]);
    let info = GpioChipInfo::from(RawGpioChipInfo::from_bytes(&buf, ByteOrder::Little));
    assert_eq!(
        info,
        GpioChipInfo {
            name: "gpiochip0".to_string(),
            label: "pinctrl-bcm2835".to_string(),
            lines: 54
        }
    );
}

#[test]
fn chip_info_with_names_of_full_length() {
    let buf = chip_bytes(&[b'n'; 32], &[b'l'; 32], [0xff, 0xff, 0xff, 0xff]);
    let info = GpioChipInfo::from(RawGpioChipInfo::from_bytes(&buf, ByteOrder::Little));
    assert_eq!(info.name, "n".repeat(32));
    assert_eq!(info.label, "l".repeat(32));
    assert_eq!(info.lines, 0xffff_ffff);
}

#[test]
fn default_records_are_zero() {
    let chip = RawGpioChipInfo::default();
    assert_eq!(chip, RawGpioChipInfo { name: [0; 32], label: [0; 32], lines: 0 });
    assert_eq!(chip, RawGpioChipInfo::from_bytes(&[0; 68], ByteOrder::Little));
    let attr = RawGpioV2LineAttr::default();
    assert_eq!(attr.id, 0);
    assert_eq!(attr.padding, 0);
    assert_eq!(attr.data, RawGpioV2LineAttrValue::default());
    assert_eq!(attr, RawGpioV2LineAttr::from_bytes(&[0; 16], ByteOrder::Big));
    let line = RawGpioV2LineInfo::default();
    assert_eq!(line, RawGpioV2LineInfo::from_bytes(&[0; 256], ByteOrder::Little));
    assert_eq!(line.attrs, [attr; 10]);
    assert_eq!(line.padding, [0; 4]);
    assert_eq!(line.offset, 0);
    assert_eq!(line.num_attrs, 0);
    assert_eq!(line.flags, 0);
}

#[test]
fn requests_are_zero_but_for_the_offset() {
    assert_eq!(RawGpioChipInfo::request(), [0u8; 68]);
    assert_eq!(RawGpioV2LineInfo::request(0, ByteOrder::Little), [0u8; 256]);
    let buf = RawGpioV2LineInfo::request(0x01020304, ByteOrder::Little);
    assert_eq!(buf[64..68], [4, 3, 2, 1]);
    assert!(buf[..64].iter().all(|b| *b == 0));
    assert!(buf[68..].iter().all(|b| *b == 0));
    let buf = RawGpioV2LineInfo::request(0x01020304, ByteOrder::Big);
    assert_eq!(buf[64..68], [1, 2, 3, 4]);
    for order in [ByteOrder::Little, ByteOrder::Big] {
        for offset in [0u32, 1, 17, 63, 64, 65, 0xffff, u32::MAX] {
            let raw = RawGpioV2LineInfo::from_bytes(&RawGpioV2LineInfo::request(offset, order), order);
            let mut expected = RawGpioV2LineInfo::default();
            expected.offset = offset;
            assert_eq!(raw, expected);
        }
    }
}

#[test]
fn line_info_is_read_at_its_offsets() {
    let mut buf = [0u8; 256];
    buf[..5].copy_from_slice(b"GPIO4");
    buf[32..39].copy_from_slice(b"onewire");
    buf[64..68].copy_from_slice(&4u32.to_le_bytes());
    buf[68..72].copy_from_slice(&2u32.to_le_bytes());
    buf[72..80].copy_from_slice(&0x0000_0000_0000_0105u64.to_le_bytes());
    put_attr(&mut buf, 0, 3, [0x88, 0x13, 0, 0, 0, 0, 0, 0]);
    put_attr(&mut buf, 1, 2, [1, 0, 0, 0, 0, 0, 0, 0x80]);
    buf[84..88].copy_from_slice(&0xaabbccddu32.to_le_bytes());
    buf[240..244].copy_from_slice(&7u32.to_le_bytes());
    buf[252..256].copy_from_slice(&9u32.to_le_bytes());

    let raw = RawGpioV2LineInfo::from_bytes(&buf, ByteOrder::Little);
    assert_eq!(&raw.name[..6], b"GPIO4\0");
    assert_eq!(&raw.consumer[..8], b"onewire\0");
    assert_eq!(raw.offset, 4);
    assert_eq!(raw.num_attrs, 2);
    assert_eq!(raw.flags, 0x105);
    assert_eq!(raw.attrs[0].id, 3);
    assert_eq!(raw.attrs[0].padding, 0xaabbccdd);
    assert_eq!(raw.attrs[1].id, 2);
    assert_eq!(raw.attrs[2], RawGpioV2LineAttr::default());
    assert_eq!(raw.padding, [7, 0, 0, 9]);
    let mut slot = [0u8; 16];
    slot.copy_from_slice(&buf[80..96]);
    assert_eq!(raw.attrs[0], RawGpioV2LineAttr::from_bytes(&slot, ByteOrder::Little));

    let info = GpioLineInfo::from(raw);
    assert_eq!(
        info,
        GpioLineInfo {
            name: "GPIO4".to_string(),
            consumer: "onewire".to_string(),
            offset: 4,
            flags: GpioLineFlags(0x105),
            attrs: vec![
                GpioLineAttr::DebouncePeriod(Duration::from_micros(5000)),
                GpioLineAttr::Values(0x8000_0000_0000_0001),
            ],
        }
    );
    assert_eq!(info.flags.to_string(), "Used | Input | BiasPullUp");
}

#[test]
fn line_info_in_big_endian_order() {
    let mut buf = [0u8; 256];
    buf[64..68].copy_from_slice(&4u32.to_be_bytes());
    buf[68..72].copy_from_slice(&3u32.to_be_bytes());
    buf[72..80].copy_from_slice(&0x9u64.to_be_bytes());
    // The debounce period is the first four bytes of the payload.
    buf[80..84].copy_from_slice(&3u32.to_be_bytes());
    buf[88..92].copy_from_slice(&5000u32.to_be_bytes());
    buf[92..96].copy_from_slice(&[0xee; 4]);
    buf[96..100].copy_from_slice(&1u32.to_be_bytes());
    buf[104..112].copy_from_slice(&0x2004u64.to_be_bytes());
    buf[112..116].copy_from_slice(&2u32.to_be_bytes());
    buf[120..128].copy_from_slice(&0x0102030405060708u64.to_be_bytes());
    let info = GpioLineInfo::from(RawGpioV2LineInfo::from_bytes(&buf, ByteOrder::Big));
    assert_eq!(info.offset, 4);
    assert_eq!(info.flags, GpioLineFlags(0x9));
    assert_eq!(
        info.attrs,
        vec![
            GpioLineAttr::DebouncePeriod(Duration::from_micros(5000)),
            GpioLineAttr::Flags(GpioLineFlags(0x2004)),
            GpioLineAttr::Values(0x0102030405060708),
        ]
    );
}

#[test]
fn a_call_that_returned_zero_gives_the_record() {
    let buf = chip_bytes(b"gpiochip1", b"", [8, 0, 0, 0]);
    let raw = RawGpioChipInfo::get_chip_info(0, 0, &buf, ByteOrder::Little);
    assert_eq!(raw, Ok(RawGpioChipInfo::from_bytes(&buf, ByteOrder::Little)));
    // The error code does not count where the call returned zero.
    let raw = RawGpioChipInfo::get_chip_info(0, 22, &buf, ByteOrder::Little);
    assert_eq!(raw.map(|r| r.lines), Ok(8));
    let buf = RawGpioV2LineInfo::request(3, ByteOrder::Little);
    let raw = RawGpioV2LineInfo::get_line_info(0, 0, &buf, ByteOrder::Little);
    assert_eq!(raw.map(|r| r.offset), Ok(3));
}

#[test]
fn a_call_that_failed_gives_the_os_error_unchanged() {
    let buf = chip_bytes(b"gpiochip1", b"", [8, 0, 0, 0]);
    for ret in [-1, 1, i32::MIN, i32::MAX] {
        for code in [0, 19, 22, 25, -5] {
            assert_eq!(
                RawGpioChipInfo::get_chip_info(ret, code, &buf, ByteOrder::Little),
                Err(GpioError::Os(code))
            );
            assert_eq!(
                RawGpioV2LineInfo::get_line_info(ret, code, &[0; 256], ByteOrder::Big),
                Err(GpioError::Os(code))
            );
        }
    }
}
