//! The GPIO driver: what to ask of an open GPIO character device, and what its answers
//! mean.
//!
//! The driver makes no system call itself. For each query it says which one call to make,
//! on which file descriptor, with which identifier and which buffer, and it turns the
//! outcome of that call into the information asked for. Opening and closing the device and
//! making the call are for the caller.

use crate::byte_order::ByteOrder;
use crate::cstr::{is_ascii_digits, str_is_ascii_digits};
use crate::error::GpioError;
use crate::gpio_ioctl::{
    gpio_get_chipinfo_ioctl, gpio_get_chipinfo_ioctl_spec, gpio_v2_get_lineinfo_ioctl,
    gpio_v2_get_lineinfo_ioctl_spec, RawGpioChipInfo, RawGpioV2LineInfo, GPIO_V2_LINES_MAX,
};
use crate::info::{chip_info_of_raw, line_info_of_raw, GpioChipInfo, GpioLineInfo};
use crate::ioctl_id::Arch;
use vstd::prelude::*;
use vstd::string::{StrSliceExecFns, StringExecFns};

verus! {

/// Maximum number of lines per chip.
pub const MAX_GPIO_LINES_PER_CHIP: usize = GPIO_V2_LINES_MAX;

/// One `ioctl(2)` call to make: the file descriptor of the device, the identifier of the
/// call, and the buffer to hand to it, which the kernel fills.
#[derive(Clone, Copy, Debug, PartialEq, Eq)]
pub struct IoctlCall<const N: usize> {
    /// The file descriptor of the open device.
    pub fd: i32,
    /// The identifier of the call.
    pub id: u64,
    /// The buffer to hand to the call.
    pub payload: [u8; N],
}

/// General Purpose Input/Output (GPIO) driver.
#[derive(Clone, Copy, Debug, PartialEq, Eq)]
pub struct Gpio {
    fd: i32,
    arch: Arch,
    order: ByteOrder,
}

/// The path of the device that a descriptor of a GPIO chip stands for: the descriptor
/// itself where it starts with `/`, the device `/dev/gpiochipN` where it is a number `N`
/// in ASCII digits, and else the device of that name under `/dev`.
pub open spec fn chip_path(desc: Seq<char>) -> Seq<char> {
    if desc.len() > 0 && desc[0] == '/' {
        desc
    } else if is_ascii_digits(desc) {
        "/dev/gpiochip"@ + desc
    } else {
        "/dev/"@ + desc
    }
}

/// The name is that of a GPIO chip device: it starts with `gpiochip`.
pub open spec fn is_chip_name(name: Seq<char>) -> bool {
    "gpiochip"@.is_prefix_of(name)
}

impl Gpio {
    /// Open a GPIO character device: the driver of the file that was opened for reading and
    /// writing on the file descriptor `fd`, on a machine of the given architecture family and
    /// byte order.
    ///
    /// # Errors
    /// If the file is not a character device, [`GpioError::NotCharDev`] is returned, and the
    /// file is for the caller to close.
    pub fn open(fd: i32, is_char_device: bool, arch: Arch, order: ByteOrder) -> (result: Result<
        Self,
        GpioError,
    >)
        ensures
            !is_char_device ==> result == Err::<Gpio, GpioError>(GpioError::NotCharDev),
            is_char_device ==> result is Ok && result->Ok_0.spec_fd() == fd
                && result->Ok_0.spec_arch() == arch && result->Ok_0.spec_order() == order,
    {
        if !is_char_device {
            Err(GpioError::NotCharDev)
        } else {
            Ok(Gpio { fd, arch, order })
        }
    }

    /// The driver of the device that is open on the file descriptor `fd`, which is known to
    /// be a GPIO character device, on a machine of the given architecture family and byte
    /// order.
    pub fn new(fd: i32, arch: Arch, order: ByteOrder) -> (gpio: Self)
        ensures
            gpio.spec_fd() == fd,
            gpio.spec_arch() == arch,
            gpio.spec_order() == order,
    {
        Gpio { fd, arch, order }
    }

    /// The file descriptor of the device.
    pub closed spec fn spec_fd(&self) -> i32 {
        self.fd
    }

    /// The architecture family of the machine.
    pub closed spec fn spec_arch(&self) -> Arch {
        self.arch
    }

    /// The byte order of the machine.
    pub closed spec fn spec_order(&self) -> ByteOrder {
        self.order
    }

    /// The file descriptor of the device.
    #[verifier::when_used_as_spec(spec_fd)]
    pub fn fd(&self) -> (fd: i32)
        ensures
            fd == self.spec_fd(),
    {
        self.fd
    }

    /// The architecture family of the machine.
    #[verifier::when_used_as_spec(spec_arch)]
    pub fn arch(&self) -> (arch: Arch)
        ensures
            arch == self.spec_arch(),
    {
        self.arch
    }

    /// The byte order of the machine.
    #[verifier::when_used_as_spec(spec_order)]
    pub fn order(&self) -> (order: ByteOrder)
        ensures
            order == self.spec_order(),
    {
        self.order
    }

    /// Convert a string describing a GPIO chip into the path of its device, or return an
    /// error.
    ///
    /// The descriptor is a full path, a chip number, or the name of a device under `/dev`.
    /// The empty descriptor is the only one that is refused.
    pub fn parse_chip_descriptor(desc: &str) -> (result: Result<String, GpioError>)
        ensures
            desc@.len() == 0 ==> result == Err::<String, GpioError>(
                GpioError::EmptyChipDescriptor,
            ),
            desc@.len() > 0 ==> result is Ok && result->Ok_0@ == chip_path(desc@),
    {
        if desc.is_empty() {
            Err(GpioError::EmptyChipDescriptor)
        } else if desc.get_char(0) == '/' {
            Ok(desc.to_owned())
        } else if str_is_ascii_digits(desc) {
            let mut path = "/dev/gpiochip".to_owned();
            path.append(desc);
            Ok(path)
        } else {
            let mut path = "/dev/".to_owned();
            path.append(desc);
            Ok(path)
        }
    }

    /// Tell whether a file name under `/dev` is that of a GPIO chip device.
    pub fn is_chip_name(name: &str) -> (chip: bool)
        ensures
            chip == is_chip_name(name@),
    {
        let prefix = "gpiochip";
        let n = prefix.unicode_len();
        if name.unicode_len() < n {
            return false;
        }
        let mut i: usize = 0;
        while i < n
            invariant
                i <= n,
                prefix@ == "gpiochip"@,
                n == prefix@.len(),
                n <= name@.len(),
                forall|j: int| 0 <= j < i ==> name@[j] == prefix@[j],
            decreases n - i,
        {
            if name.get_char(i) != prefix.get_char(i) {
                proof {
                    let head = name@.subrange(0, prefix@.len() as int);
                    assert(head[i as int] == name@[i as int]);
                    assert(head[i as int] != prefix@[i as int]);
                    assert(!(prefix@ =~= head));
                }
                return false;
            }
            i += 1;
        }
        assert(prefix@ =~= name@.subrange(0, n as int));
        true
    }

    /// The call that gets information about this GPIO chip: one call that reads a chip-info
    /// record into a buffer of zero bytes.
    pub fn get_chip_info_call(&self) -> (call: IoctlCall<68>)
        ensures
            call.fd == self.spec_fd(),
            call.id == gpio_get_chipinfo_ioctl_spec(self.spec_arch()),
            call.payload@ == Seq::new(68, |i: int| 0u8),
    {
        IoctlCall {
            fd: self.fd,
            id: gpio_get_chipinfo_ioctl(self.arch),
            payload: RawGpioChipInfo::request(),
        }
    }

    /// Get information about this GPIO chip, from the outcome of the call that
    /// [`Gpio::get_chip_info_call`] describes: the value that `ioctl(2)` returned, the error
    /// code that the operating system reported if that value is not zero, and the buffer
    /// that was handed to the call.
    pub fn get_chip_info(&self, ret: i32, os_error: i32, reply: &[u8; 68]) -> (result: Result<
        GpioChipInfo,
        GpioError,
    >)
        ensures
            ret == 0 ==> result is Ok && result->Ok_0@ == chip_info_of_raw(
                RawGpioChipInfo::of_bytes(reply@, self.spec_order()),
            ),
            ret != 0 ==> result == Err::<GpioChipInfo, GpioError>(GpioError::Os(os_error)),
    {
        match RawGpioChipInfo::get_chip_info(ret, os_error, reply, self.order) {
            Ok(raw) => Ok(GpioChipInfo::from(raw)),
            Err(e) => Err(e),
        }
    }

    /// The call that gets information about a GPIO line: one call that reads and writes a
    /// line-info record, in a buffer that holds the offset of the line and is zero
    /// everywhere else.
    ///
    /// A line number that does not fit the 32 bits of the offset field is refused, and no
    /// call is to be made.
    pub fn get_line_info_call(&self, line: usize) -> (result: Result<IoctlCall<256>, GpioError>)
        ensures
            line > u32::MAX ==> result == Err::<IoctlCall<256>, GpioError>(
                GpioError::InvalidLineNumber,
            ),
            line <= u32::MAX ==> result is Ok && {
                let call = result->Ok_0;
                &&& call.fd == self.spec_fd()
                &&& call.id == gpio_v2_get_lineinfo_ioctl_spec(self.spec_arch())
                &&& call.payload@ == RawGpioV2LineInfo::request_bytes(
                    line as u32,
                    self.spec_order(),
                )
            },
    {
        if line > 0xffff_ffff {
            return Err(GpioError::InvalidLineNumber);
        }
        Ok(
            IoctlCall {
                fd: self.fd,
                id: gpio_v2_get_lineinfo_ioctl(self.arch),
                payload: RawGpioV2LineInfo::request(line as u32, self.order),
            },
        )
    }

    /// Get information about a GPIO line, from the outcome of the call that
    /// [`Gpio::get_line_info_call`] describes: the value that `ioctl(2)` returned, the error
    /// code that the operating system reported if that value is not zero, and the buffer
    /// that was handed to the call.
    pub fn get_line_info(&self, ret: i32, os_error: i32, reply: &[u8; 256]) -> (result: Result<
        GpioLineInfo,
        GpioError,
    >)
        ensures
            ret == 0 ==> result is Ok && result->Ok_0@ == line_info_of_raw(
                RawGpioV2LineInfo::of_bytes(reply@, self.spec_order()),
            ),
            ret != 0 ==> result == Err::<GpioLineInfo, GpioError>(GpioError::Os(os_error)),
    {
        match RawGpioV2LineInfo::get_line_info(ret, os_error, reply, self.order) {
            Ok(raw) => Ok(GpioLineInfo::from(raw)),
            Err(e) => Err(e),
        }
    }
}

} // verus!
