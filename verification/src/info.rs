//! Information about a GPIO chip and about a GPIO line, as plain values.

use crate::attr::{decode_attributes, decode_attrs, slots_in_use, GpioLineAttr};
use crate::cstr::{cstr_text, cstr_to_string};
use crate::flags::{decode_flags, GpioLineFlags};
use crate::gpio_ioctl::{
    RawGpioChipInfo, RawGpioChipInfoView, RawGpioV2LineInfo, RawGpioV2LineInfoView,
};
use vstd::prelude::*;
use vstd::std_specs::convert::FromSpecImpl;

verus! {

/// GPIO chip information.
#[derive(Clone, Debug, PartialEq, Eq)]
pub struct GpioChipInfo {
    /// The name of the GPIO chip.
    pub name: String,
    /// A label set on the GPIO chip.
    pub label: String,
    /// The number of GPIO lines on this chip.
    pub lines: usize,
}

/// What a [`GpioChipInfo`] holds.
pub ghost struct GpioChipInfoView {
    pub name: Seq<char>,
    pub label: Seq<char>,
    pub lines: nat,
}

impl View for GpioChipInfo {
    type V = GpioChipInfoView;

    open spec fn view(&self) -> GpioChipInfoView {
        GpioChipInfoView { name: self.name@, label: self.label@, lines: self.lines as nat }
    }
}

/// The chip information that a record gives.
pub open spec fn chip_info_of_raw(raw: RawGpioChipInfoView) -> GpioChipInfoView {
    GpioChipInfoView {
        name: cstr_text(raw.name),
        label: cstr_text(raw.label),
        lines: raw.lines as nat,
    }
}

impl From<RawGpioChipInfo> for GpioChipInfo {
    /// The chip information of a record: the two names as text, and the number of lines.
    fn from(raw: RawGpioChipInfo) -> (info: Self)
        ensures
            info@ == chip_info_of_raw(raw@),
    {
        Self {
            name: cstr_to_string(raw.name.as_slice()),
            label: cstr_to_string(raw.label.as_slice()),
            lines: raw.lines as usize,
        }
    }
}

/// The conversion is stated by what the result holds, in the contract of `from`: a
/// `String` is not known by its text alone, so no value can be named as the result.
impl FromSpecImpl<RawGpioChipInfo> for GpioChipInfo {
    open spec fn obeys_from_spec() -> bool {
        false
    }

    open spec fn from_spec(raw: RawGpioChipInfo) -> Self {
        choose|info: GpioChipInfo| info@ == chip_info_of_raw(raw@)
    }
}

/// GPIO line information.
#[derive(Clone, Debug, PartialEq, Eq)]
pub struct GpioLineInfo {
    /// The name of the GPIO line.
    pub name: String,
    /// The consumer of the GPIO line.
    pub consumer: String,
    /// The offset of the GPIO line (bit position for the line within the GPIO chip).
    pub offset: usize,
    /// Flags associated with this line.
    pub flags: GpioLineFlags,
    /// Attributes associated with this line.
    pub attrs: Vec<GpioLineAttr>,
}

/// What a [`GpioLineInfo`] holds.
pub ghost struct GpioLineInfoView {
    pub name: Seq<char>,
    pub consumer: Seq<char>,
    pub offset: nat,
    pub flags: u64,
    pub attrs: Seq<GpioLineAttr>,
}

impl View for GpioLineInfo {
    type V = GpioLineInfoView;

    open spec fn view(&self) -> GpioLineInfoView {
        GpioLineInfoView {
            name: self.name@,
            consumer: self.consumer@,
            offset: self.offset as nat,
            flags: self.flags@,
            attrs: self.attrs@,
        }
    }
}

/// The line information that a record gives.
pub open spec fn line_info_of_raw(raw: RawGpioV2LineInfoView) -> GpioLineInfoView {
    GpioLineInfoView {
        name: cstr_text(raw.name),
        consumer: cstr_text(raw.consumer),
        offset: raw.offset as nat,
        flags: raw.flags,
        attrs: decode_attrs(raw.attrs, slots_in_use(raw.num_attrs)),
    }
}

impl From<RawGpioV2LineInfo> for GpioLineInfo {
    /// The line information of a record: the two names as text, the offset, the flags, and
    /// the attributes that the slots in use hold.
    fn from(raw: RawGpioV2LineInfo) -> (info: Self)
        ensures
            info@ == line_info_of_raw(raw@),
    {
        let name = cstr_to_string(raw.name.as_slice());
        let consumer = cstr_to_string(raw.consumer.as_slice());
        let offset = raw.offset as usize;
        let flags = decode_flags(raw.flags);
        let attrs = decode_attributes(&raw.attrs, raw.num_attrs);
        Self { name, consumer, offset, flags, attrs }
    }
}

/// The conversion is stated by what the result holds, in the contract of `from`: a
/// `String` is not known by its text alone, so no value can be named as the result.
impl FromSpecImpl<RawGpioV2LineInfo> for GpioLineInfo {
    open spec fn obeys_from_spec() -> bool {
        false
    }

    open spec fn from_spec(raw: RawGpioV2LineInfo) -> Self {
        choose|info: GpioLineInfo| info@ == line_info_of_raw(raw@)
    }
}

} // verus!
