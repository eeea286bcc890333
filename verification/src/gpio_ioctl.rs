//! The records of the GPIO character-device interface as the kernel lays them out, and the
//! identifiers of its `ioctl(2)` calls.
//!
//! A record is a run of bytes of fixed size. Each field lies at a fixed offset, integers in
//! the byte order of the machine. The records here are `gpiochip_info`, `gpio_v2_line_info`
//! and `gpio_v2_line_attribute` of `linux/gpio.h`.

use crate::byte_order::{lemma_u32_round_trip, ByteOrder};
use crate::error::GpioError;
use crate::ioctl_id::{ioc, ioc_spec, iowr, Arch, IOC_READ};
use vstd::prelude::*;

verus! {

/// The maximum size of GPIO name and label arrays.
pub const GPIO_MAX_NAME_SIZE: usize = 32;

/// Maximum number of requested lines.
pub const GPIO_V2_LINES_MAX: usize = 64;

/// The maximum number of configuration attributes associated with a line request.
pub const GPIO_V2_LINE_NUM_ATTRS_MAX: usize = 10;

/// Line attribute id: flags.
pub const GPIO_V2_LINE_ATTR_ID_FLAGS: u32 = 1;

/// Line attribute id: values.
pub const GPIO_V2_LINE_ATTR_ID_OUTPUT_VALUES: u32 = 2;

/// Line attribute id: debounce period.
pub const GPIO_V2_LINE_ATTR_ID_DEBOUNCE: u32 = 3;

/// The type identifier of every call of the GPIO character-device interface.
pub const GPIO_IOCTL_TYPE: u64 = 0xb4;

/// The payload of a line attribute: eight bytes that the kernel means as one of three
/// things, by the id of the attribute.
///
/// The value holds the readings of the eight bytes: as one 64-bit integer, which is what a
/// flags word and a values bitmap are, and of the first four of them as one 32-bit integer,
/// which is what a debounce period is. Which reading counts is for the id to say, so the
/// readings are to be had from [`RawGpioV2LineAttr::decode`] alone.
#[derive(Clone, Copy, Debug, PartialEq, Eq)]
pub struct RawGpioV2LineAttrValue {
    word: u64,
    head: u32,
}

impl RawGpioV2LineAttrValue {
    /// The payload read as a flags word.
    pub closed spec fn flags(self) -> u64 {
        self.word
    }

    /// The payload read as a bitmap of output values.
    pub closed spec fn values(self) -> u64 {
        self.word
    }

    /// The payload read as a debounce period in microseconds.
    pub closed spec fn debounce_period_us(self) -> u32 {
        self.head
    }

    /// The payload that eight bytes hold in the given byte order.
    pub closed spec fn of_bytes(bytes: Seq<u8>, order: ByteOrder) -> Self {
        RawGpioV2LineAttrValue {
            word: order.spec_u64(bytes),
            head: order.spec_u32(bytes.subrange(0, 4)),
        }
    }

    /// The readings of the payload that eight bytes hold: the flags word and the values
    /// bitmap are the eight bytes as one integer, the debounce period is the first four.
    /// Two payloads with the same readings are the same.
    pub proof fn lemma_readings(bytes: Seq<u8>, order: ByteOrder)
        ensures
            Self::of_bytes(bytes, order).flags() == order.spec_u64(bytes),
            Self::of_bytes(bytes, order).values() == order.spec_u64(bytes),
            Self::of_bytes(bytes, order).debounce_period_us() == order.spec_u32(
                bytes.subrange(0, 4),
            ),
    {
    }

    /// A payload is known by its readings.
    pub proof fn lemma_known_by_readings(a: Self, b: Self)
        requires
            a.flags() == b.flags(),
            a.debounce_period_us() == b.debounce_period_us(),
        ensures
            a == b,
    {
    }

    /// Read the payload that lies in the eight bytes of `buf` from index `at` on.
    pub(crate) fn read(buf: &[u8], at: usize, order: ByteOrder) -> (value: Self)
        requires
            at + 8 <= buf@.len(),
        ensures
            value == Self::of_bytes(buf@.subrange(at as int, at + 8), order),
    {
        proof {
            let bytes = buf@.subrange(at as int, at + 8);
            assert(bytes.subrange(0, 4) =~= buf@.subrange(at as int, at + 4));
        }
        RawGpioV2LineAttrValue { word: order.read_u64(buf, at), head: order.read_u32(buf, at) }
    }

    /// The payload read as a flags word.
    pub(crate) fn get_flags(&self) -> (flags: u64)
        ensures
            flags == self.flags(),
    {
        self.word
    }

    /// The payload read as a bitmap of output values.
    pub(crate) fn get_values(&self) -> (values: u64)
        ensures
            values == self.values(),
    {
        self.word
    }

    /// The payload read as a debounce period in microseconds.
    pub(crate) fn get_debounce_period_us(&self) -> (period: u32)
        ensures
            period == self.debounce_period_us(),
    {
        self.head
    }
}

impl Default for RawGpioV2LineAttrValue {
    /// The payload of eight zero bytes.
    fn default() -> (value: Self)
        ensures
            value.flags() == 0,
            value.values() == 0,
            value.debounce_period_us() == 0,
    {
        RawGpioV2LineAttrValue { word: 0, head: 0 }
    }
}

/// Struct `gpio_v2_line_attribute` from `linux/gpio.h`: a configurable attribute of a line.
#[derive(Clone, Copy, Debug, PartialEq, Eq)]
pub struct RawGpioV2LineAttr {
    /// The id of the attribute, which says what the payload means.
    pub id: u32,
    /// Reserved, to keep the payload aligned to eight bytes.
    pub padding: u32,
    /// The payload.
    pub data: RawGpioV2LineAttrValue,
}

impl RawGpioV2LineAttr {
    /// The size of the record in bytes.
    pub const SIZE: usize = 16;

    /// The offset of `id` in the record.
    pub const OFFSET_ID: usize = 0;

    /// The offset of `padding` in the record.
    pub const OFFSET_PADDING: usize = 4;

    /// The offset of `data` in the record, whatever the payload is read as.
    pub const OFFSET_DATA: usize = 8;

    /// The record that sixteen bytes hold in the given byte order.
    pub open spec fn of_bytes(bytes: Seq<u8>, order: ByteOrder) -> Self {
        RawGpioV2LineAttr {
            id: order.spec_u32(bytes.subrange(0, 4)),
            padding: order.spec_u32(bytes.subrange(4, 8)),
            data: RawGpioV2LineAttrValue::of_bytes(bytes.subrange(8, 16), order),
        }
    }

    /// Read the record that lies in the sixteen bytes of `buf` from index `at` on.
    pub(crate) fn read(buf: &[u8], at: usize, order: ByteOrder) -> (attr: Self)
        requires
            at + 16 <= buf@.len(),
        ensures
            attr == Self::of_bytes(buf@.subrange(at as int, at + 16), order),
    {
        proof {
            assert(buf@.len() == buf.len());
            let bytes = buf@.subrange(at as int, at + 16);
            assert(bytes.subrange(0, 4) =~= buf@.subrange(at as int, at + 4));
            assert(bytes.subrange(4, 8) =~= buf@.subrange(at + 4, at + 8));
            assert(bytes.subrange(8, 16) =~= buf@.subrange(at + 8, at + 16));
        }
        RawGpioV2LineAttr {
            id: order.read_u32(buf, at + Self::OFFSET_ID),
            padding: order.read_u32(buf, at + Self::OFFSET_PADDING),
            data: RawGpioV2LineAttrValue::read(buf, at + Self::OFFSET_DATA, order),
        }
    }

    /// Decode the record from the bytes that the kernel wrote.
    pub fn from_bytes(buf: &[u8; 16], order: ByteOrder) -> (attr: Self)
        ensures
            attr == Self::of_bytes(buf@, order),
    {
        assert(buf@.subrange(0, 16) =~= buf@);
        Self::read(buf.as_slice(), 0, order)
    }
}

impl Default for RawGpioV2LineAttr {
    /// The record of sixteen zero bytes.
    fn default() -> (attr: Self)
        ensures
            attr.id == 0,
            attr.padding == 0,
            attr.data.flags() == 0,
            attr.data.values() == 0,
            attr.data.debounce_period_us() == 0,
    {
        RawGpioV2LineAttr { id: 0, padding: 0, data: RawGpioV2LineAttrValue::default() }
    }
}

/// Copy the `N` bytes of `buf` from index `at` on.
fn read_bytes<const N: usize>(buf: &[u8], at: usize) -> (bytes: [u8; N])
    requires
        at + N <= buf@.len(),
    ensures
        bytes@ == buf@.subrange(at as int, at + N),
{
    let mut bytes = [0u8;N];
    let mut i: usize = 0;
    while i < N
        invariant
            i <= N,
            at + N <= buf@.len() == buf.len(),
            bytes@.len() == N,
            forall|j: int| 0 <= j < i ==> bytes@[j] == buf@[at + j],
        decreases N - i,
    {
        bytes[i] = buf[at + i];
        i += 1;
    }
    assert(bytes@ =~= buf@.subrange(at as int, at + N));
    bytes
}

/// Struct `gpiochip_info` from `linux/gpio.h`: information about a GPIO chip.
#[derive(Clone, Copy, Debug, PartialEq, Eq)]
pub struct RawGpioChipInfo {
    /// The Linux kernel name of the chip, as a C string.
    pub name: [u8; GPIO_MAX_NAME_SIZE],
    /// A functional name of the chip, as a C string.
    pub label: [u8; GPIO_MAX_NAME_SIZE],
    /// The number of GPIO lines on the chip.
    pub lines: u32,
}

/// What a [`RawGpioChipInfo`] holds.
pub ghost struct RawGpioChipInfoView {
    pub name: Seq<u8>,
    pub label: Seq<u8>,
    pub lines: u32,
}

impl View for RawGpioChipInfo {
    type V = RawGpioChipInfoView;

    open spec fn view(&self) -> RawGpioChipInfoView {
        RawGpioChipInfoView { name: self.name@, label: self.label@, lines: self.lines }
    }
}

impl RawGpioChipInfo {
    /// The size of the record in bytes.
    pub const SIZE: usize = 68;

    /// The offset of `name` in the record.
    pub const OFFSET_NAME: usize = 0;

    /// The offset of `label` in the record.
    pub const OFFSET_LABEL: usize = 32;

    /// The offset of `lines` in the record.
    pub const OFFSET_LINES: usize = 64;

    /// What the record holds that 68 bytes make in the given byte order.
    pub open spec fn of_bytes(bytes: Seq<u8>, order: ByteOrder) -> RawGpioChipInfoView {
        RawGpioChipInfoView {
            name: bytes.subrange(0, 32),
            label: bytes.subrange(32, 64),
            lines: order.spec_u32(bytes.subrange(64, 68)),
        }
    }

    /// Decode the record from the bytes that the kernel wrote.
    pub fn from_bytes(buf: &[u8; 68], order: ByteOrder) -> (raw: Self)
        ensures
            raw@ == Self::of_bytes(buf@, order),
    {
        let buf = buf.as_slice();
        RawGpioChipInfo {
            name: read_bytes(buf, Self::OFFSET_NAME),
            label: read_bytes(buf, Self::OFFSET_LABEL),
            lines: order.read_u32(buf, Self::OFFSET_LINES),
        }
    }
}

impl Default for RawGpioChipInfo {
    /// The record of 68 zero bytes.
    fn default() -> (raw: Self)
        ensures
            raw@ == (RawGpioChipInfoView {
                name: Seq::new(32, |i: int| 0u8),
                label: Seq::new(32, |i: int| 0u8),
                lines: 0,
            }),
    {
        let raw = RawGpioChipInfo { name: [0u8;32], label: [0u8;32], lines: 0 };
        assert(raw.name@ =~= Seq::new(32, |i: int| 0u8));
        assert(raw.label@ =~= Seq::new(32, |i: int| 0u8));
        raw
    }
}

/// Struct `gpio_v2_line_info` from `linux/gpio.h`: information about a GPIO line.
#[derive(Clone, Copy, Debug, PartialEq, Eq)]
pub struct RawGpioV2LineInfo {
    /// The name of the line, as a C string.
    pub name: [u8; GPIO_MAX_NAME_SIZE],
    /// The name of the consumer of the line, as a C string.
    pub consumer: [u8; GPIO_MAX_NAME_SIZE],
    /// The offset of the line on its chip.
    pub offset: u32,
    /// The number of slots of `attrs` that the kernel filled, from the first on.
    pub num_attrs: u32,
    /// The flags of the line.
    pub flags: u64,
    /// The slots for the attributes of the line.
    pub attrs: [RawGpioV2LineAttr; GPIO_V2_LINE_NUM_ATTRS_MAX],
    /// Reserved.
    pub padding: [u32; 4],
}

/// What a [`RawGpioV2LineInfo`] holds.
pub ghost struct RawGpioV2LineInfoView {
    pub name: Seq<u8>,
    pub consumer: Seq<u8>,
    pub offset: u32,
    pub num_attrs: u32,
    pub flags: u64,
    pub attrs: Seq<RawGpioV2LineAttr>,
    pub padding: Seq<u32>,
}

impl View for RawGpioV2LineInfo {
    type V = RawGpioV2LineInfoView;

    open spec fn view(&self) -> RawGpioV2LineInfoView {
        RawGpioV2LineInfoView {
            name: self.name@,
            consumer: self.consumer@,
            offset: self.offset,
            num_attrs: self.num_attrs,
            flags: self.flags,
            attrs: self.attrs@,
            padding: self.padding@,
        }
    }
}

impl RawGpioV2LineInfo {
    /// The size of the record in bytes.
    pub const SIZE: usize = 256;

    /// The offset of `name` in the record.
    pub const OFFSET_NAME: usize = 0;

    /// The offset of `consumer` in the record.
    pub const OFFSET_CONSUMER: usize = 32;

    /// The offset of `offset` in the record.
    pub const OFFSET_OFFSET: usize = 64;

    /// The offset of `num_attrs` in the record.
    pub const OFFSET_NUM_ATTRS: usize = 68;

    /// The offset of `flags` in the record.
    pub const OFFSET_FLAGS: usize = 72;

    /// The offset of `attrs` in the record.
    pub const OFFSET_ATTRS: usize = 80;

    /// The offset of `padding` in the record.
    pub const OFFSET_PADDING: usize = 240;

    /// What the record holds that 256 bytes make in the given byte order.
    pub open spec fn of_bytes(bytes: Seq<u8>, order: ByteOrder) -> RawGpioV2LineInfoView {
        RawGpioV2LineInfoView {
            name: bytes.subrange(0, 32),
            consumer: bytes.subrange(32, 64),
            offset: order.spec_u32(bytes.subrange(64, 68)),
            num_attrs: order.spec_u32(bytes.subrange(68, 72)),
            flags: order.spec_u64(bytes.subrange(72, 80)),
            attrs: Seq::new(
                10,
                |i: int|
                    RawGpioV2LineAttr::of_bytes(bytes.subrange(80 + 16 * i, 96 + 16 * i), order),
            ),
            padding: Seq::new(
                4,
                |i: int| order.spec_u32(bytes.subrange(240 + 4 * i, 244 + 4 * i)),
            ),
        }
    }

    /// Decode the record from the bytes that the kernel wrote.
    pub fn from_bytes(buf: &[u8; 256], order: ByteOrder) -> (raw: Self)
        ensures
            raw@ == Self::of_bytes(buf@, order),
    {
        let buf = buf.as_slice();
        let mut attrs = [RawGpioV2LineAttr::default();10];
        let mut i: usize = 0;
        while i < 10
            invariant
                i <= 10,
                buf@.len() == 256,
                attrs@.len() == 10,
                forall|j: int|
                    0 <= j < i ==> attrs@[j] == RawGpioV2LineAttr::of_bytes(
                        buf@.subrange(80 + 16 * j, 96 + 16 * j),
                        order,
                    ),
            decreases 10 - i,
        {
            attrs[i] = RawGpioV2LineAttr::read(
                buf,
                Self::OFFSET_ATTRS + RawGpioV2LineAttr::SIZE * i,
                order,
            );
            i += 1;
        }
        let mut padding = [0u32;4];
        let mut k: usize = 0;
        while k < 4
            invariant
                k <= 4,
                buf@.len() == 256,
                padding@.len() == 4,
                forall|j: int|
                    0 <= j < k ==> padding@[j] == order.spec_u32(
                        buf@.subrange(240 + 4 * j, 244 + 4 * j),
                    ),
            decreases 4 - k,
        {
            padding[k] = order.read_u32(buf, Self::OFFSET_PADDING + 4 * k);
            k += 1;
        }
        let raw = RawGpioV2LineInfo {
            name: read_bytes(buf, Self::OFFSET_NAME),
            consumer: read_bytes(buf, Self::OFFSET_CONSUMER),
            offset: order.read_u32(buf, Self::OFFSET_OFFSET),
            num_attrs: order.read_u32(buf, Self::OFFSET_NUM_ATTRS),
            flags: order.read_u64(buf, Self::OFFSET_FLAGS),
            attrs,
            padding,
        };
        assert(raw@.attrs =~= Self::of_bytes(buf@, order).attrs);
        assert(raw@.padding =~= Self::of_bytes(buf@, order).padding);
        raw
    }
}

impl Default for RawGpioV2LineInfo {
    /// The record of 256 zero bytes.
    fn default() -> (raw: Self)
        ensures
            raw@.name == Seq::new(32, |i: int| 0u8),
            raw@.consumer == Seq::new(32, |i: int| 0u8),
            raw@.offset == 0,
            raw@.num_attrs == 0,
            raw@.flags == 0,
            raw@.attrs.len() == 10,
            forall|i: int|
                0 <= i < 10 ==> {
                    &&& (#[trigger] raw@.attrs[i]).id == 0
                    &&& raw@.attrs[i].padding == 0
                    &&& raw@.attrs[i].data.flags() == 0
                    &&& raw@.attrs[i].data.values() == 0
                    &&& raw@.attrs[i].data.debounce_period_us() == 0
                },
            raw@.padding == Seq::new(4, |i: int| 0u32),
    {
        let raw = RawGpioV2LineInfo {
            name: [0u8;32],
            consumer: [0u8;32],
            offset: 0,
            num_attrs: 0,
            flags: 0,
            attrs: [RawGpioV2LineAttr::default();10],
            padding: [0u32;4],
        };
        assert(raw.name@ =~= Seq::new(32, |i: int| 0u8));
        assert(raw.consumer@ =~= Seq::new(32, |i: int| 0u8));
        assert(raw.padding@ =~= Seq::new(4, |i: int| 0u32));
        raw
    }
}

impl RawGpioChipInfo {
    /// The buffer to hand to the call that gets information about a chip: all zero.
    pub fn request() -> (buf: [u8; 68])
        ensures
            buf@ == Seq::new(68, |i: int| 0u8),
    {
        let buf = [0u8;68];
        assert(buf@ =~= Seq::new(68, |i: int| 0u8));
        buf
    }

    /// Returns information about a GPIO chip, from the outcome of the one call that gets
    /// it: the value that `ioctl(2)` returned, the error code that the operating system
    /// reported if that value is not zero, and the buffer that was handed to the call.
    ///
    /// The record is decoded if the call returned zero. Any other value is a failure, and
    /// the error code comes back as it is.
    pub fn get_chip_info(ret: i32, os_error: i32, reply: &[u8; 68], order: ByteOrder) -> (result:
        Result<RawGpioChipInfo, GpioError>)
        ensures
            ret == 0 ==> result is Ok && result->Ok_0@ == Self::of_bytes(reply@, order),
            ret != 0 ==> result == Err::<RawGpioChipInfo, GpioError>(GpioError::Os(os_error)),
    {
        if ret != 0 {
            Err(GpioError::Os(os_error))
        } else {
            Ok(Self::from_bytes(reply, order))
        }
    }
}

impl RawGpioV2LineInfo {
    /// The bytes of the buffer to hand to the call that gets information about the line at
    /// `offset`: the offset in its field, and zero everywhere else.
    pub open spec fn request_bytes(offset: u32, order: ByteOrder) -> Seq<u8> {
        Seq::new(
            256,
            |i: int|
                if 64 <= i < 68 {
                    order.spec_u32_bytes(offset)[i - 64]
                } else {
                    0u8
                },
        )
    }

    /// The buffer to hand to the call that gets information about the line at `offset`:
    /// the offset in its field, and zero everywhere else.
    pub fn request(offset: u32, order: ByteOrder) -> (buf: [u8; 256])
        ensures
            buf@ == Self::request_bytes(offset, order),
    {
        let field = order.write_u32(offset);
        let mut buf = [0u8;256];
        let mut i: usize = 0;
        while i < 4
            invariant
                i <= 4,
                field@ == order.spec_u32_bytes(offset),
                buf@.len() == 256,
                forall|j: int| 0 <= j < 64 + i ==> buf@[j] == Self::request_bytes(offset, order)[j],
                forall|j: int| 64 + i <= j < 256 ==> buf@[j] == 0,
            decreases 4 - i,
        {
            buf[Self::OFFSET_OFFSET + i] = field[i];
            i += 1;
        }
        assert(buf@ =~= Self::request_bytes(offset, order));
        buf
    }

    /// Returns information about a GPIO line, from the outcome of the one call that gets
    /// it: the value that `ioctl(2)` returned, the error code that the operating system
    /// reported if that value is not zero, and the buffer that was handed to the call.
    ///
    /// The record is decoded if the call returned zero. Any other value is a failure, and
    /// the error code comes back as it is.
    pub fn get_line_info(ret: i32, os_error: i32, reply: &[u8; 256], order: ByteOrder) -> (result:
        Result<RawGpioV2LineInfo, GpioError>)
        ensures
            ret == 0 ==> result is Ok && result->Ok_0@ == Self::of_bytes(reply@, order),
            ret != 0 ==> result == Err::<RawGpioV2LineInfo, GpioError>(GpioError::Os(os_error)),
    {
        if ret != 0 {
            Err(GpioError::Os(os_error))
        } else {
            Ok(Self::from_bytes(reply, order))
        }
    }
}

/// The record that a request for the line at `offset` holds: the offset, and zero in
/// every other field. So the kernel is asked about that line and about nothing else.
pub proof fn lemma_line_info_request(offset: u32, order: ByteOrder)
    ensures
        RawGpioV2LineInfo::request_bytes(offset, order).len() == 256,
        ({
            let raw = RawGpioV2LineInfo::of_bytes(
                RawGpioV2LineInfo::request_bytes(offset, order),
                order,
            );
            &&& raw.name == Seq::new(32, |i: int| 0u8)
            &&& raw.consumer == Seq::new(32, |i: int| 0u8)
            &&& raw.offset == offset
            &&& raw.num_attrs == 0
            &&& raw.flags == 0
            &&& raw.attrs.len() == 10
            &&& forall|i: int|
                0 <= i < 10 ==> {
                    &&& (#[trigger] raw.attrs[i]).id == 0
                    &&& raw.attrs[i].padding == 0
                    &&& raw.attrs[i].data.flags() == 0
                    &&& raw.attrs[i].data.values() == 0
                    &&& raw.attrs[i].data.debounce_period_us() == 0
                }
            &&& raw.padding == Seq::new(4, |i: int| 0u32)
        }),
{
    let bytes = RawGpioV2LineInfo::request_bytes(offset, order);
    let raw = RawGpioV2LineInfo::of_bytes(bytes, order);
    lemma_u32_round_trip(order, offset);
    assert(bytes.subrange(64, 68) =~= order.spec_u32_bytes(offset));
    assert(raw.name =~= Seq::new(32, |i: int| 0u8));
    assert(raw.consumer =~= Seq::new(32, |i: int| 0u8));
    assert(order.to_le(bytes.subrange(68, 72)) =~= Seq::new(4, |i: int| 0u8));
    assert(order.to_le(bytes.subrange(72, 80)) =~= Seq::new(8, |i: int| 0u8));
    assert forall|i: int| 0 <= i < 10 implies {
        &&& (#[trigger] raw.attrs[i]).id == 0
        &&& raw.attrs[i].padding == 0
        &&& raw.attrs[i].data.flags() == 0
        &&& raw.attrs[i].data.values() == 0
        &&& raw.attrs[i].data.debounce_period_us() == 0
    } by {
        let slot = bytes.subrange(80 + 16 * i, 96 + 16 * i);
        assert(order.to_le(slot.subrange(0, 4)) =~= Seq::new(4, |i: int| 0u8));
        assert(order.to_le(slot.subrange(4, 8)) =~= Seq::new(4, |i: int| 0u8));
        assert(order.to_le(slot.subrange(8, 16)) =~= Seq::new(8, |i: int| 0u8));
        assert(order.to_le(slot.subrange(8, 16).subrange(0, 4)) =~= Seq::new(4, |i: int| 0u8));
    }
    assert forall|i: int| 0 <= i < 4 implies raw.padding[i] == 0u32 by {
        assert(order.to_le(bytes.subrange(240 + 4 * i, 244 + 4 * i)) =~= Seq::new(
            4,
            |i: int| 0u8,
        ));
    }
    assert(raw.padding =~= Seq::new(4, |i: int| 0u32));
}

/// The identifier of the call that gets information about a chip, on the reference
/// architecture ([`Arch::Generic`]).
pub const GPIO_GET_CHIPINFO_IOCTL: u64 = 0x8044b401;

/// The identifier of the call that stops watching a line, on the reference architecture.
/// No query makes this call.
pub const GPIO_GET_LINEINFO_UNWATCH_IOCTL: u64 = 0xc004b40c;

/// The identifier of the call that gets information about a line, on the reference
/// architecture.
pub const GPIO_V2_GET_LINEINFO_IOCTL: u64 = 0xc100b405;

/// The identifier of the call that gets information about a line and starts watching it,
/// on the reference architecture. No query makes this call.
pub const GPIO_V2_GET_LINEINFO_WATCH_IOCTL: u64 = 0xc100b406;

/// The identifier of the call that gets information about a chip: a call that reads a
/// [`RawGpioChipInfo`], with call number `0x01`.
pub open spec fn gpio_get_chipinfo_ioctl_spec(arch: Arch) -> u64 {
    ioc_spec(arch, IOC_READ, GPIO_IOCTL_TYPE, 0x01, RawGpioChipInfo::SIZE as u64)
}

/// The identifier of the call that stops watching a line: a call that reads and writes a
/// 32-bit line offset, with call number `0x0c`.
pub open spec fn gpio_get_lineinfo_unwatch_ioctl_spec(arch: Arch) -> u64 {
    ioc_spec(arch, IOC_READ | arch.spec_write(), GPIO_IOCTL_TYPE, 0x0c, 4)
}

/// The identifier of the call that gets information about a line: a call that reads and
/// writes a [`RawGpioV2LineInfo`], with call number `0x05`.
pub open spec fn gpio_v2_get_lineinfo_ioctl_spec(arch: Arch) -> u64 {
    ioc_spec(
        arch,
        IOC_READ | arch.spec_write(),
        GPIO_IOCTL_TYPE,
        0x05,
        RawGpioV2LineInfo::SIZE as u64,
    )
}

/// The identifier of the call that gets information about a line and starts watching it:
/// a call that reads and writes a [`RawGpioV2LineInfo`], with call number `0x06`.
pub open spec fn gpio_v2_get_lineinfo_watch_ioctl_spec(arch: Arch) -> u64 {
    ioc_spec(
        arch,
        IOC_READ | arch.spec_write(),
        GPIO_IOCTL_TYPE,
        0x06,
        RawGpioV2LineInfo::SIZE as u64,
    )
}

/// The identifier of the call that gets information about a chip.
#[verifier::when_used_as_spec(gpio_get_chipinfo_ioctl_spec)]
pub fn gpio_get_chipinfo_ioctl(arch: Arch) -> (id: u64)
    ensures
        id == gpio_get_chipinfo_ioctl_spec(arch),
{
    ioc(arch, IOC_READ, GPIO_IOCTL_TYPE, 0x01, RawGpioChipInfo::SIZE as u64)
}

/// The identifier of the call that stops watching a line. No query makes this call.
#[verifier::when_used_as_spec(gpio_get_lineinfo_unwatch_ioctl_spec)]
pub fn gpio_get_lineinfo_unwatch_ioctl(arch: Arch) -> (id: u64)
    ensures
        id == gpio_get_lineinfo_unwatch_ioctl_spec(arch),
{
    broadcast use vstd::layout::layout_of_primitives;

    iowr::<u32>(arch, GPIO_IOCTL_TYPE, 0x0c)
}

/// The identifier of the call that gets information about a line.
#[verifier::when_used_as_spec(gpio_v2_get_lineinfo_ioctl_spec)]
pub fn gpio_v2_get_lineinfo_ioctl(arch: Arch) -> (id: u64)
    ensures
        id == gpio_v2_get_lineinfo_ioctl_spec(arch),
{
    ioc(arch, IOC_READ | arch.write(), GPIO_IOCTL_TYPE, 0x05, RawGpioV2LineInfo::SIZE as u64)
}

/// The identifier of the call that gets information about a line and starts watching it.
/// No query makes this call.
#[verifier::when_used_as_spec(gpio_v2_get_lineinfo_watch_ioctl_spec)]
pub fn gpio_v2_get_lineinfo_watch_ioctl(arch: Arch) -> (id: u64)
    ensures
        id == gpio_v2_get_lineinfo_watch_ioctl_spec(arch),
{
    ioc(arch, IOC_READ | arch.write(), GPIO_IOCTL_TYPE, 0x06, RawGpioV2LineInfo::SIZE as u64)
}

/// The four identifiers on the reference architecture, as numbers.
proof fn lemma_reference_values()
    by (bit_vector)
    ensures
        ((2u64 << 30u64) | (0xb4u64 << 8u64) | (0x01u64 << 0u64) | (68u64 << 16u64))
            == 0x8044b401u64,
        (((2u64 | 1u64) << 30u64) | (0xb4u64 << 8u64) | (0x0cu64 << 0u64) | (4u64 << 16u64))
            == 0xc004b40cu64,
        (((2u64 | 1u64) << 30u64) | (0xb4u64 << 8u64) | (0x05u64 << 0u64) | (256u64 << 16u64))
            == 0xc100b405u64,
        (((2u64 | 1u64) << 30u64) | (0xb4u64 << 8u64) | (0x06u64 << 0u64) | (256u64 << 16u64))
            == 0xc100b406u64,
{
}

/// On the reference architecture the four identifiers of the interface are the constants
/// that the C headers give.
pub proof fn lemma_reference_identifiers()
    ensures
        gpio_get_chipinfo_ioctl_spec(Arch::Generic) == GPIO_GET_CHIPINFO_IOCTL,
        gpio_get_lineinfo_unwatch_ioctl_spec(Arch::Generic) == GPIO_GET_LINEINFO_UNWATCH_IOCTL,
        gpio_v2_get_lineinfo_ioctl_spec(Arch::Generic) == GPIO_V2_GET_LINEINFO_IOCTL,
        gpio_v2_get_lineinfo_watch_ioctl_spec(Arch::Generic) == GPIO_V2_GET_LINEINFO_WATCH_IOCTL,
{
    lemma_reference_values();
}

} // verus!
