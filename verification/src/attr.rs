//! The attributes of a GPIO line, decoded from the slots of a line-info record.

use crate::flags::GpioLineFlags;
use crate::gpio_ioctl::{
    RawGpioV2LineAttr, GPIO_V2_LINE_ATTR_ID_DEBOUNCE, GPIO_V2_LINE_ATTR_ID_FLAGS,
    GPIO_V2_LINE_ATTR_ID_OUTPUT_VALUES, GPIO_V2_LINE_NUM_ATTRS_MAX,
};
use std::time::Duration;
use vstd::prelude::*;

verus! {

/// Configurable attribute of a line.
#[derive(Clone, Copy, Debug, PartialEq, Eq)]
pub enum GpioLineAttr {
    /// Flags associated with the line.
    Flags(GpioLineFlags),
    /// Bitmap containing the values to which the line will be set.
    Values(u64),
    /// The desired debounce period.
    DebouncePeriod(Duration),
}

/// The duration that `Duration::from_micros` makes of a number of microseconds.
pub uninterp spec fn duration_from_micros(micros: u64) -> Duration;

/// Calls `Duration::from_micros`.
///
/// The contract names the duration, which depends on the number of microseconds alone. The
/// function takes every `u64` and does not panic.
#[verifier::external_body]
fn duration_of_micros(micros: u64) -> (period: Duration)
    ensures
        period == duration_from_micros(micros),
{
    Duration::from_micros(micros)
}

/// The id of an attribute is one of the three that the interface defines.
pub open spec fn is_known_attr_id(id: u32) -> bool {
    id == GPIO_V2_LINE_ATTR_ID_FLAGS || id == GPIO_V2_LINE_ATTR_ID_OUTPUT_VALUES || id
        == GPIO_V2_LINE_ATTR_ID_DEBOUNCE
}

/// The attribute that a slot holds, by its id alone: the payload is read as the flags word
/// for id 1, as the values bitmap for id 2, and as a debounce period in microseconds for
/// id 3. A slot with any other id holds no attribute.
pub open spec fn decode_attr(raw: RawGpioV2LineAttr) -> Option<GpioLineAttr> {
    if raw.id == GPIO_V2_LINE_ATTR_ID_FLAGS {
        Some(GpioLineAttr::Flags(GpioLineFlags(raw.data.flags())))
    } else if raw.id == GPIO_V2_LINE_ATTR_ID_OUTPUT_VALUES {
        Some(GpioLineAttr::Values(raw.data.values()))
    } else if raw.id == GPIO_V2_LINE_ATTR_ID_DEBOUNCE {
        Some(
            GpioLineAttr::DebouncePeriod(
                duration_from_micros(raw.data.debounce_period_us() as u64),
            ),
        )
    } else {
        None
    }
}

/// The attributes that the first `n` slots hold, in the order of the slots. A slot with an
/// id that is not known adds nothing.
pub open spec fn decode_attrs(slots: Seq<RawGpioV2LineAttr>, n: nat) -> Seq<GpioLineAttr>
    decreases n,
{
    if n == 0 || n > slots.len() {
        Seq::empty()
    } else {
        let before = decode_attrs(slots, (n - 1) as nat);
        match decode_attr(slots[n - 1]) {
            Some(attr) => before.push(attr),
            None => before,
        }
    }
}

/// The ids of those of the first `n` slots whose id is not known, in the order of the
/// slots.
pub open spec fn unknown_attr_ids(slots: Seq<RawGpioV2LineAttr>, n: nat) -> Seq<u32>
    decreases n,
{
    if n == 0 || n > slots.len() {
        Seq::empty()
    } else {
        let before = unknown_attr_ids(slots, (n - 1) as nat);
        if is_known_attr_id(slots[n - 1].id) {
            before
        } else {
            before.push(slots[n - 1].id)
        }
    }
}

/// The number of slots that count for a record that says it holds `num_attrs`: that
/// number, but no more than there are slots.
pub open spec fn slots_in_use(num_attrs: u32) -> nat {
    if num_attrs as nat <= GPIO_V2_LINE_NUM_ATTRS_MAX as nat {
        num_attrs as nat
    } else {
        GPIO_V2_LINE_NUM_ATTRS_MAX as nat
    }
}

impl RawGpioV2LineAttr {
    /// Decode the attribute that the slot holds, by its id. `None` for an id that is not
    /// known.
    pub fn decode(&self) -> (attr: Option<GpioLineAttr>)
        ensures
            attr == decode_attr(*self),
            attr is Some <==> is_known_attr_id(self.id),
    {
        if self.id == GPIO_V2_LINE_ATTR_ID_FLAGS {
            Some(GpioLineAttr::Flags(GpioLineFlags(self.data.get_flags())))
        } else if self.id == GPIO_V2_LINE_ATTR_ID_OUTPUT_VALUES {
            Some(GpioLineAttr::Values(self.data.get_values()))
        } else if self.id == GPIO_V2_LINE_ATTR_ID_DEBOUNCE {
            Some(
                GpioLineAttr::DebouncePeriod(
                    duration_of_micros(self.data.get_debounce_period_us() as u64),
                ),
            )
        } else {
            None
        }
    }
}

/// The number of slots to look at for a record that says it holds `num_attrs`.
fn slots_to_decode(num_attrs: u32) -> (n: usize)
    ensures
        n == slots_in_use(num_attrs),
        n <= GPIO_V2_LINE_NUM_ATTRS_MAX,
{
    if num_attrs as usize <= GPIO_V2_LINE_NUM_ATTRS_MAX {
        num_attrs as usize
    } else {
        GPIO_V2_LINE_NUM_ATTRS_MAX
    }
}

/// Decode the attributes of a line from the slots of its record.
///
/// Only the first `num_attrs` slots are looked at, whatever the others hold. The
/// attributes come in the order of their slots. A slot with an id that is not known is
/// left out, and the slots after it still count.
pub fn decode_attributes(raw_attrs: &[RawGpioV2LineAttr; 10], num_attrs: u32) -> (attrs: Vec<
    GpioLineAttr,
>)
    ensures
        attrs@ == decode_attrs(raw_attrs@, slots_in_use(num_attrs)),
        num_attrs == 0 ==> attrs@.len() == 0,
{
    let n = slots_to_decode(num_attrs);
    let mut attrs: Vec<GpioLineAttr> = Vec::new();
    let mut i: usize = 0;
    while i < n
        invariant
            i <= n <= 10,
            attrs@ == decode_attrs(raw_attrs@, i as nat),
        decreases n - i,
    {
        match raw_attrs[i].decode() {
            Some(attr) => {
                attrs.push(attr);
            },
            None => {},
        }
        i += 1;
    }
    attrs
}

/// The ids of the slots that [`decode_attributes`] leaves out because their id is not
/// known, in the order of the slots, for the caller to report.
pub fn unrecognized_attr_ids(raw_attrs: &[RawGpioV2LineAttr; 10], num_attrs: u32) -> (ids: Vec<
    u32,
>)
    ensures
        ids@ == unknown_attr_ids(raw_attrs@, slots_in_use(num_attrs)),
{
    let n = slots_to_decode(num_attrs);
    let mut ids: Vec<u32> = Vec::new();
    let mut i: usize = 0;
    while i < n
        invariant
            i <= n <= 10,
            ids@ == unknown_attr_ids(raw_attrs@, i as nat),
        decreases n - i,
    {
        let id = raw_attrs[i].id;
        if !(id == GPIO_V2_LINE_ATTR_ID_FLAGS || id == GPIO_V2_LINE_ATTR_ID_OUTPUT_VALUES || id
            == GPIO_V2_LINE_ATTR_ID_DEBOUNCE) {
            ids.push(id);
        }
        i += 1;
    }
    ids
}

/// Every slot in use gives an attribute or an id that is not known, never both: the
/// number of attributes and the number of ids left out add up to the number of slots in
/// use.
pub proof fn lemma_decode_attrs_len(slots: Seq<RawGpioV2LineAttr>, n: nat)
    requires
        n <= slots.len(),
    ensures
        decode_attrs(slots, n).len() + unknown_attr_ids(slots, n).len() == n,
    decreases n,
{
    if n > 0 {
        lemma_decode_attrs_len(slots, (n - 1) as nat);
    }
}

/// Where every id among the first `n` slots is known, each slot gives its attribute, at
/// the index of the slot.
pub proof fn lemma_decode_attrs_all_known(slots: Seq<RawGpioV2LineAttr>, n: nat)
    requires
        n <= slots.len(),
        forall|i: int| 0 <= i < n ==> is_known_attr_id(#[trigger] slots[i].id),
    ensures
        decode_attrs(slots, n).len() == n,
        forall|i: int|
            0 <= i < n ==> Some(#[trigger] decode_attrs(slots, n)[i]) == decode_attr(slots[i]),
    decreases n,
{
    if n > 0 {
        lemma_decode_attrs_all_known(slots, (n - 1) as nat);
        assert(is_known_attr_id(slots[n - 1].id));
    }
}

/// What is decoded from the first `n` slots depends on those slots alone.
pub proof fn lemma_decode_attrs_prefix(
    a: Seq<RawGpioV2LineAttr>,
    b: Seq<RawGpioV2LineAttr>,
    n: nat,
)
    requires
        n <= a.len(),
        n <= b.len(),
        forall|i: int| 0 <= i < n ==> a[i] == b[i],
    ensures
        decode_attrs(a, n) == decode_attrs(b, n),
    decreases n,
{
    if n > 0 {
        lemma_decode_attrs_prefix(a, b, (n - 1) as nat);
    }
}

/// A slot with an id that is not known is left out and nothing else changes: the
/// attributes are those of the slots without that slot, so every attribute before it and
/// after it is still there, in order.
pub proof fn lemma_decode_attrs_skips_unknown(slots: Seq<RawGpioV2LineAttr>, n: nat, k: int)
    requires
        0 <= k < n <= slots.len(),
        !is_known_attr_id(slots[k].id),
    ensures
        decode_attrs(slots, n) == decode_attrs(slots.remove(k), (n - 1) as nat),
    decreases n,
{
    let rest = slots.remove(k);
    if k == n - 1 {
        lemma_decode_attrs_prefix(slots, rest, (n - 1) as nat);
    } else {
        lemma_decode_attrs_skips_unknown(slots, (n - 1) as nat, k);
        assert(rest[n - 2] == slots[n - 1]);
    }
}

} // verus!
