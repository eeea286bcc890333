use gpio_linux_char::{decode_flags, GpioLineFlag, GpioLineFlags};

#[test]
fn display_of_no_flag_is_none() {
    assert_eq!(GpioLineFlags(0).to_string(), "None");
    assert_eq!(GpioLineFlags::default().to_string(), "None");
    assert_eq!(decode_flags(0).to_string(), "None");
}

#[test]
fn display_is_in_declared_order_not_operand_order() {
    assert_eq!((GpioLineFlag::Input | GpioLineFlag::ActiveLow).to_string(), "ActiveLow | Input");
    assert_eq!((GpioLineFlag::ActiveLow | GpioLineFlag::Input).to_string(), "ActiveLow | Input");
}

#[test]
fn display_of_single_flags() {
    let names = [
        "Used",
        "ActiveLow",
        "Input",
        "Output",
        "EdgeRising",
        "EdgeFalling",
        "OpenDrain",
        "OpenSource",
        "BiasPullUp",
        "BiasPullDown",
        "BiasDisabled",
        "EventClockRealtime",
        "EventClockHte",
    ];
    let all = GpioLineFlag::all();
    assert_eq!(all.len(), names.len());
    for (flag, name) in all.iter().zip(names) {
        assert_eq!(flag.to_string(), name);
        assert_eq!(flag.name(), name);
        assert_eq!(GpioLineFlags::from(*flag).to_string(), name);
    }
}

#[test]
fn display_of_all_flags() {
    assert_eq!(
        GpioLineFlags(0x1fff).to_string(),
        "Used | ActiveLow | Input | Output | EdgeRising | EdgeFalling | OpenDrain | OpenSource \
         | BiasPullUp | BiasPullDown | BiasDisabled | EventClockRealtime | EventClockHte"
    );
}

#[test]
fn display_ignores_bits_without_a_name() {
    assert_eq!(GpioLineFlags(0x2000).to_string(), "");
    assert_eq!(GpioLineFlags(1 << 63).to_string(), "");
    assert_eq!(GpioLineFlags(0x2000 | 0x8).to_string(), "Output");
    assert_eq!(GpioLineFlags(u64::MAX).to_string(), GpioLineFlags(0x1fff).to_string());
}

#[test]
fn all_flags_in_declared_order_with_their_bits() {
    let all = GpioLineFlag::all();
    assert_eq!(
        all,
        [
            GpioLineFlag::Used,
            GpioLineFlag::ActiveLow,
            GpioLineFlag::Input,
            GpioLineFlag::Output,
            GpioLineFlag::EdgeRising,
            GpioLineFlag::EdgeFalling,
            GpioLineFlag::OpenDrain,
            GpioLineFlag::OpenSource,
            GpioLineFlag::BiasPullUp,
            GpioLineFlag::BiasPullDown,
            GpioLineFlag::BiasDisabled,
            GpioLineFlag::EventClockRealtime,
            GpioLineFlag::EventClockHte,
        ]
    );
    for (i, flag) in all.iter().enumerate() {
        assert_eq!(flag.bit(), 1u64 << i);
    }
}

#[test]
fn decode_flags_keeps_every_bit() {
    for raw in [0u64, 1, 0x1fff, 0x2000, 0xdead_beef_0000_0005, u64::MAX] {
        assert_eq!(decode_flags(raw).bits(), raw);
        assert_eq!(decode_flags(raw), GpioLineFlags(raw));
    }
}

#[test]
fn set_algebra_on_flag_sets() {
    let a = GpioLineFlag::Used | GpioLineFlag::Input;
    let b = GpioLineFlag::Input | GpioLineFlag::OpenDrain;
    assert_eq!((a & b).bits(), 0x4);
    assert_eq!((a | b).bits(), 0x45);
    assert_eq!((a ^ b).bits(), 0x41);
    assert_eq!((!a).bits(), !0x5u64);
    assert_eq!((a & b).to_string(), "Input");
    assert_eq!((a | b).to_string(), "Used | Input | OpenDrain");
    assert_eq!((a ^ b).to_string(), "Used | OpenDrain");
    for flag in GpioLineFlag::all() {
        let flag = *flag;
        assert_eq!((a & b).contains(flag), a.contains(flag) && b.contains(flag));
        assert_eq!((a | b).contains(flag), a.contains(flag) || b.contains(flag));
        assert_eq!((a ^ b).contains(flag), a.contains(flag) != b.contains(flag));
        assert_eq!((!a).contains(flag), !a.contains(flag));
    }
}

#[test]
fn assigning_operators_on_flag_sets() {
    let mut flags = GpioLineFlags(0x0f);
    flags &= GpioLineFlags(0x3c);
    assert_eq!(flags.bits(), 0x0c);
    flags |= GpioLineFlags(0x100);
    assert_eq!(flags.bits(), 0x10c);
    flags ^= GpioLineFlags(0x104);
    assert_eq!(flags.bits(), 0x008);
    assert_eq!(flags.to_string(), "Output");
}

#[test]
fn operators_on_single_flags() {
    assert_eq!((GpioLineFlag::Input & GpioLineFlag::Input).bits(), 0x4);
    assert_eq!((GpioLineFlag::Input & GpioLineFlag::Output).bits(), 0);
    assert_eq!((GpioLineFlag::Input | GpioLineFlag::Output).bits(), 0xc);
    assert_eq!((GpioLineFlag::Input ^ GpioLineFlag::Output).bits(), 0xc);
    assert_eq!((GpioLineFlag::Input ^ GpioLineFlag::Input).bits(), 0);
    assert_eq!((!GpioLineFlag::Used).bits(), u64::MAX - 1);
    assert_eq!((GpioLineFlag::Input & GpioLineFlag::Output).to_string(), "None");
}

#[test]
fn a_single_flag_holds_itself_only() {
    for flag in GpioLineFlag::all() {
        for other in GpioLineFlag::all() {
            assert_eq!(GpioLineFlags::from(*flag).contains(*other), flag == other);
        }
    }
}
