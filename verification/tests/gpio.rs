use gpio_linux_char::gpio_ioctl::{RawGpioV2LineInfo, GPIO_GET_CHIPINFO_IOCTL, GPIO_V2_GET_LINEINFO_IOCTL};
use gpio_linux_char::{
    Arch, ByteOrder, Gpio, GpioChipInfo, GpioError, GpioLineFlags, IoctlCall,
    MAX_GPIO_LINES_PER_CHIP,
};

#[test]
fn chip_descriptor_empty_is_refused() {
    assert_eq!(Gpio::parse_chip_descriptor(""), Err(GpioError::EmptyChipDescriptor));
}

#[test]
fn chip_descriptor_path_is_kept() {
    assert_eq!(Gpio::parse_chip_descriptor("/dev/gpiochip0"), Ok("/dev/gpiochip0".to_string()));
    assert_eq!(Gpio::parse_chip_descriptor("/"), Ok("/".to_string()));
    assert_eq!(Gpio::parse_chip_descriptor("/42"), Ok("/42".to_string()));
    assert_eq!(Gpio::parse_chip_descriptor("/tmp/x y"), Ok("/tmp/x y".to_string()));
}

#[test]
fn chip_descriptor_number_is_a_chip_under_dev() {
    assert_eq!(Gpio::parse_chip_descriptor("0"), Ok("/dev/gpiochip0".to_string()));
    assert_eq!(Gpio::parse_chip_descriptor("12"), Ok("/dev/gpiochip12".to_string()));
    assert_eq!(Gpio::parse_chip_descriptor("007"), Ok("/dev/gpiochip007".to_string()));
}

#[test]
fn chip_descriptor_name_is_a_device_under_dev() {
    assert_eq!(Gpio::parse_chip_descriptor("gpiochip3"), Ok("/dev/gpiochip3".to_string()));
    assert_eq!(Gpio::parse_chip_descriptor("1a"), Ok("/dev/1a".to_string()));
    assert_eq!(Gpio::parse_chip_descriptor("-1"), Ok("/dev/-1".to_string()));
    assert_eq!(Gpio::parse_chip_descriptor("a/b"), Ok("/dev/a/b".to_string()));
    assert_eq!(Gpio::parse_chip_descriptor("\u{661}"), Ok("/dev/\u{661}".to_string()));
    assert_eq!(Gpio::parse_chip_descriptor(" "), Ok("/dev/ ".to_string()));
}

#[test]
fn chip_descriptor_agrees_with_path_join() {
    for desc in ["gpiochip3", "1a", "a/b", "x", "gpio chip"] {
        let joined = std::path::PathBuf::from("/dev").join(desc);
        assert_eq!(Gpio::parse_chip_descriptor(desc).ok(), joined.to_str().map(str::to_string));
    }
}

#[test]
fn chip_names_start_with_gpiochip() {
    assert!(Gpio::is_chip_name("gpiochip0"));
    assert!(Gpio::is_chip_name("gpiochip"));
    assert!(Gpio::is_chip_name("gpiochip12"));
    assert!(Gpio::is_chip_name("gpiochipX"));
    assert!(!Gpio::is_chip_name(""));
    assert!(!Gpio::is_chip_name("gpiochi"));
    assert!(!Gpio::is_chip_name("gpio"));
    assert!(!Gpio::is_chip_name("Gpiochip0"));
    assert!(!Gpio::is_chip_name("xgpiochip0"));
    assert!(!Gpio::is_chip_name("gpiochjp0"));
    assert!(!Gpio::is_chip_name("tty0"));
    assert!(!Gpio::is_chip_name("\u{3a9}piochip0"));
}

#[test]
fn opening_what_is_not_a_character_device_is_refused() {
    assert_eq!(
        Gpio::open(3, false, Arch::Generic, ByteOrder::Little),
        Err(GpioError::NotCharDev)
    );
    let gpio = Gpio::open(3, true, Arch::Sparc, ByteOrder::Big).unwrap();
    assert_eq!(gpio, Gpio::new(3, Arch::Sparc, ByteOrder::Big));
    assert_eq!(gpio.fd(), 3);
}

#[test]
fn driver_keeps_what_it_was_made_with() {
    let gpio = Gpio::new(7, Arch::Mips, ByteOrder::Big);
    assert_eq!(gpio.fd(), 7);
    assert_eq!(gpio.arch(), Arch::Mips);
    assert_eq!(gpio.order(), ByteOrder::Big);
    assert_eq!(MAX_GPIO_LINES_PER_CHIP, 64);
}

#[test]
fn chip_info_call_is_one_read_of_a_zero_buffer() {
    let gpio = Gpio::new(5, Arch::Generic, ByteOrder::Little);
    assert_eq!(
        gpio.get_chip_info_call(),
        IoctlCall { fd: 5, id: GPIO_GET_CHIPINFO_IOCTL, payload: [0u8; 68] }
    );
    let gpio = Gpio::new(-1, Arch::Mips, ByteOrder::Big);
    assert_eq!(gpio.get_chip_info_call(), IoctlCall { fd: -1, id: 0x4044b401, payload: [0u8; 68] });
}

#[test]
fn line_info_call_holds_the_offset_only() {
    let gpio = Gpio::new(5, Arch::Generic, ByteOrder::Little);
    let call = gpio.get_line_info_call(17).unwrap();
    assert_eq!(call.fd, 5);
    assert_eq!(call.id, GPIO_V2_GET_LINEINFO_IOCTL);
    let mut expected = [0u8; 256];
    expected[64] = 17;
    assert_eq!(call.payload, expected);
    assert_eq!(call.payload, RawGpioV2LineInfo::request(17, ByteOrder::Little));

    let gpio = Gpio::new(5, Arch::Generic, ByteOrder::Big);
    let call = gpio.get_line_info_call(17).unwrap();
    let mut expected = [0u8; 256];
    expected[67] = 17;
    assert_eq!(call.payload, expected);
}

#[test]
fn line_numbers_that_fit_32_bits_are_taken() {
    let gpio = Gpio::new(5, Arch::Generic, ByteOrder::Little);
    for line in [0usize, 1, 63, 64, 65, 1000, u32::MAX as usize] {
        let call = gpio.get_line_info_call(line).unwrap();
        assert_eq!(call.payload[64..68], (line as u32).to_le_bytes());
    }
}

#[test]
fn line_numbers_beyond_32_bits_are_refused() {
    let gpio = Gpio::new(5, Arch::Generic, ByteOrder::Little);
    if usize::BITS > 32 {
        let beyond = (u32::MAX as u64 + 1) as usize;
        assert_eq!(gpio.get_line_info_call(beyond), Err(GpioError::InvalidLineNumber));
        assert_eq!(gpio.get_line_info_call(usize::MAX), Err(GpioError::InvalidLineNumber));
        assert!(GpioError::InvalidLineNumber.is_invalid_input());
    }
}

#[test]
fn chip_info_from_the_outcome_of_the_call() {
    let gpio = Gpio::new(5, Arch::Generic, ByteOrder::Little);
    let mut reply = gpio.get_chip_info_call().payload;
    reply[..9].copy_from_slice(b"gpiochip0");
    reply[32..39].copy_from_slice(b"spi-bus");
    reply[64] = 16;
    assert_eq!(
        gpio.get_chip_info(0, 0, &reply),
        Ok(GpioChipInfo { name: "gpiochip0".to_string(), label: "spi-bus".to_string(), lines: 16 })
    );
    assert_eq!(gpio.get_chip_info(-1, 19, &reply), Err(GpioError::Os(19)));
    assert_eq!(gpio.get_chip_info(1, 0, &reply), Err(GpioError::Os(0)));
}

#[test]
fn line_info_from_the_outcome_of_the_call() {
    let gpio = Gpio::new(5, Arch::Generic, ByteOrder::Little);
    let mut reply = gpio.get_line_info_call(2).unwrap().payload;
    reply[..4].copy_from_slice(b"SDA1");
    reply[72] = 0x06;
    reply[68] = 1;
    reply[80] = 99;
    let info = gpio.get_line_info(0, 0, &reply).unwrap();
    assert_eq!(info.name, "SDA1");
    assert_eq!(info.consumer, "");
    assert_eq!(info.offset, 2);
    assert_eq!(info.flags, GpioLineFlags(0x6));
    assert_eq!(info.flags.to_string(), "ActiveLow | Input");
    assert_eq!(info.attrs, vec![]);
    assert_eq!(gpio.get_line_info(-1, 22, &reply), Err(GpioError::Os(22)));
}

#[test]
fn failure_on_one_query_leaves_the_others_alone() {
    let gpio = Gpio::new(5, Arch::Generic, ByteOrder::Little);
    let reply = gpio.get_line_info_call(1).unwrap().payload;
    let first = gpio.get_line_info(0, 0, &reply);
    let failed = gpio.get_line_info(-1, 5, &reply);
    let again = gpio.get_line_info(0, 0, &reply);
    assert!(failed.is_err());
    assert_eq!(first, again);
}

#[test]
fn errors_as_text_and_by_kind() {
    assert_eq!(GpioError::NotCharDev.to_string(), "GPIO device is not a character device");
    assert_eq!(GpioError::EmptyChipDescriptor.to_string(), "Empty GPIO chip descriptor");
    assert_eq!(GpioError::InvalidLineNumber.to_string(), "Invalid GPIO line number");
    assert_eq!(GpioError::Os(19).to_string(), "GPIO system call failed");
    assert!(GpioError::EmptyChipDescriptor.is_invalid_input());
    assert!(GpioError::InvalidLineNumber.is_invalid_input());
    assert!(!GpioError::NotCharDev.is_invalid_input());
    assert!(!GpioError::Os(22).is_invalid_input());
    assert_eq!(GpioError::Os(22).raw_os_error(), Some(22));
    assert_eq!(GpioError::NotCharDev.raw_os_error(), None);
    assert_eq!(GpioError::InvalidLineNumber.raw_os_error(), None);
}
