//! Linux GPIO character devices without the system calls: the identifiers of `ioctl(2)`
//! calls on every architecture family, the records of the GPIO character-device interface
//! byte for byte, and the decoding of what the kernel answers.
//!
//! The crate decides and decodes; it performs no input or output. A program opens the
//! device, makes the one call that [`Gpio`] describes for a query, and hands the outcome
//! back.

pub mod attr;
pub mod byte_order;
pub mod cstr;
pub mod error;
pub mod flags;
pub mod gpio;
pub mod gpio_ioctl;
pub mod info;
pub mod ioctl_id;

pub use attr::{decode_attributes, unrecognized_attr_ids, GpioLineAttr};
pub use byte_order::ByteOrder;
pub use cstr::{cstr_to_string, str_is_ascii_digits};
pub use error::GpioError;
pub use flags::{decode_flags, GpioLineFlag, GpioLineFlags};
pub use gpio::{Gpio, IoctlCall, MAX_GPIO_LINES_PER_CHIP};
pub use info::{GpioChipInfo, GpioLineInfo};
pub use ioctl_id::{io, ioc, ioc_dir, ioc_nr, ioc_size, ioc_type, ioc_typecheck, ior, iow, iowr, Arch};
