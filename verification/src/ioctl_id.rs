//! Packing and unpacking of Linux `ioctl(2)` identifiers.
//!
//! An identifier is an `unsigned long` divided into four fields. From the most significant
//! to the least significant:
//! * the direction of the call,
//! * the size of the structure passed to the call,
//! * a type identifier,
//! * a call identifier.
//!
//! The width and the position of the direction and size fields, and the direction values
//! themselves, depend on the architecture family. The family is an [`Arch`] value that the
//! caller fixes once for the target it is built for and hands to every function here.
//!
//! Identifiers are held in a `u64`. With every field inside its width the identifier fits in
//! 32 bits on every family but [`Arch::Sparc64`], so the same value serves targets whose
//! `unsigned long` is 32 bits wide.

use vstd::prelude::*;

verus! {

/// The number of bits available for call identifiers. The same for all architectures.
pub const IOC_NRBITS: u64 = 8;

/// The number of bits available for type identifiers. The same for all architectures.
pub const IOC_TYPEBITS: u64 = 8;

/// Bitmask for valid call identifiers, applied to the unshifted call identifier.
pub const IOC_NRMASK: u64 = 0xff;

/// Bitmask for valid type identifiers, applied to the unshifted type identifier.
pub const IOC_TYPEMASK: u64 = 0xff;

/// The number of bits to shift call identifiers by.
pub const IOC_NRSHIFT: u64 = 0;

/// The number of bits to shift type identifiers by.
pub const IOC_TYPESHIFT: u64 = 8;

/// Direction bit specifying that data is read. The same for all architectures.
pub const IOC_READ: u64 = 2;

/// Architecture family, as far as the layout of an identifier depends on it.
#[derive(Clone, Copy, Debug, PartialEq, Eq, Structural)]
pub enum Arch {
    /// x86, ARM, RISC-V and every architecture that is not named by another variant.
    Generic,
    /// MIPS, 32 and 64 bits.
    Mips,
    /// PowerPC, 32 bits.
    PowerPc,
    /// PowerPC, 64 bits: the 13-bit size field of PowerPC under the 2-bit direction field
    /// and the direction values of [`Arch::Generic`].
    PowerPc64,
    /// SPARC, 32 bits. The size field starts one bit lower than on every other family and
    /// shares that bit with the type field.
    Sparc,
    /// SPARC, 64 bits.
    Sparc64,
}

impl Arch {
    /// The number of bits used for the size of the argument.
    pub open spec fn spec_size_bits(self) -> u64 {
        match self {
            Arch::Mips | Arch::PowerPc | Arch::PowerPc64 => 13,
            Arch::Generic | Arch::Sparc | Arch::Sparc64 => 14,
        }
    }

    /// The number of bits used for the size of the argument: 13 for MIPS and PowerPC, 14 for
    /// all other architectures.
    #[verifier::when_used_as_spec(spec_size_bits)]
    pub fn size_bits(self) -> (bits: u64)
        ensures
            bits == self.spec_size_bits(),
    {
        match self {
            Arch::Mips | Arch::PowerPc | Arch::PowerPc64 => 13,
            Arch::Generic | Arch::Sparc | Arch::Sparc64 => 14,
        }
    }

    /// The number of bits used for the direction of the call.
    pub open spec fn spec_dir_bits(self) -> u64 {
        match self {
            Arch::Mips | Arch::PowerPc | Arch::Sparc | Arch::Sparc64 => 3,
            Arch::Generic | Arch::PowerPc64 => 2,
        }
    }

    /// The number of bits used for the direction of the call: 3 for MIPS, 32-bit PowerPC and
    /// SPARC, 2 for all other architectures.
    #[verifier::when_used_as_spec(spec_dir_bits)]
    pub fn dir_bits(self) -> (bits: u64)
        ensures
            bits == self.spec_dir_bits(),
    {
        match self {
            Arch::Mips | Arch::PowerPc | Arch::Sparc | Arch::Sparc64 => 3,
            Arch::Generic | Arch::PowerPc64 => 2,
        }
    }

    /// Direction value specifying that no data is read or written.
    pub open spec fn spec_none(self) -> u64 {
        match self {
            Arch::Mips | Arch::PowerPc | Arch::Sparc | Arch::Sparc64 => 1,
            Arch::Generic | Arch::PowerPc64 => 0,
        }
    }

    /// Direction value specifying that no data is read or written: 1 where the direction
    /// field has 3 bits, 0 (no bit set) where it has 2.
    #[verifier::when_used_as_spec(spec_none)]
    pub fn none(self) -> (dir: u64)
        ensures
            dir == self.spec_none(),
    {
        match self {
            Arch::Mips | Arch::PowerPc | Arch::Sparc | Arch::Sparc64 => 1,
            Arch::Generic | Arch::PowerPc64 => 0,
        }
    }

    /// Direction bit specifying that data is written.
    pub open spec fn spec_write(self) -> u64 {
        match self {
            Arch::Mips | Arch::PowerPc | Arch::Sparc | Arch::Sparc64 => 4,
            Arch::Generic | Arch::PowerPc64 => 1,
        }
    }

    /// Direction bit specifying that data is written: 4 where the direction field has 3
    /// bits, 1 where it has 2.
    #[verifier::when_used_as_spec(spec_write)]
    pub fn write(self) -> (dir: u64)
        ensures
            dir == self.spec_write(),
    {
        match self {
            Arch::Mips | Arch::PowerPc | Arch::Sparc | Arch::Sparc64 => 4,
            Arch::Generic | Arch::PowerPc64 => 1,
        }
    }

    /// The number of bits to shift size values by.
    pub open spec fn spec_size_shift(self) -> u64 {
        match self {
            Arch::Sparc => 15,
            _ => 16,
        }
    }

    /// The number of bits to shift size values by: the type shift plus the type width, less
    /// one on 32-bit SPARC.
    #[verifier::when_used_as_spec(spec_size_shift)]
    pub fn size_shift(self) -> (shift: u64)
        ensures
            shift == self.spec_size_shift(),
            shift == if self == Arch::Sparc {
                IOC_TYPESHIFT + IOC_TYPEBITS - 1
            } else {
                IOC_TYPESHIFT + IOC_TYPEBITS
            },
    {
        match self {
            Arch::Sparc => IOC_TYPESHIFT + IOC_TYPEBITS - 1,
            _ => IOC_TYPESHIFT + IOC_TYPEBITS,
        }
    }

    /// The number of bits to shift direction values by.
    pub open spec fn spec_dir_shift(self) -> u64 {
        (self.spec_size_shift() + self.spec_size_bits()) as u64
    }

    /// The number of bits to shift direction values by: the size shift plus the size width.
    #[verifier::when_used_as_spec(spec_dir_shift)]
    pub fn dir_shift(self) -> (shift: u64)
        ensures
            shift == self.spec_dir_shift(),
            shift == self.spec_size_shift() + self.spec_size_bits(),
            shift == 29 || shift == 30,
    {
        self.size_shift() + self.size_bits()
    }

    /// Bitmask for valid size values.
    pub open spec fn spec_size_mask(self) -> u64 {
        match self {
            Arch::Mips | Arch::PowerPc | Arch::PowerPc64 => 0x1fff,
            Arch::Generic | Arch::Sparc | Arch::Sparc64 => 0x3fff,
        }
    }

    /// Bitmask for valid size values, applied to the unshifted size value: the low
    /// `size_bits()` bits.
    #[verifier::when_used_as_spec(spec_size_mask)]
    pub fn size_mask(self) -> (mask: u64)
        ensures
            mask == self.spec_size_mask(),
            mask == (1u64 << self.spec_size_bits()) - 1,
    {
        proof {
            lemma_field_widths();
        }
        (1u64 << self.size_bits()) - 1
    }

    /// Bitmask for valid direction values.
    pub open spec fn spec_dir_mask(self) -> u64 {
        match self {
            Arch::Mips | Arch::PowerPc | Arch::Sparc | Arch::Sparc64 => 7,
            Arch::Generic | Arch::PowerPc64 => 3,
        }
    }

    /// Bitmask for valid direction values, applied to the unshifted direction value: the low
    /// `dir_bits()` bits.
    #[verifier::when_used_as_spec(spec_dir_mask)]
    pub fn dir_mask(self) -> (mask: u64)
        ensures
            mask == self.spec_dir_mask(),
            mask == (1u64 << self.spec_dir_bits()) - 1,
    {
        proof {
            lemma_field_widths();
        }
        (1u64 << self.dir_bits()) - 1
    }
}

/// The identifier made of a direction value, a type identifier, a call identifier and a
/// size value: each value shifted to the place of its field, and the four joined bit by bit.
pub open spec fn ioc_spec(arch: Arch, dir: u64, ty: u64, nr: u64, size: u64) -> u64 {
    (dir << arch.spec_dir_shift()) | (ty << IOC_TYPESHIFT) | (nr << IOC_NRSHIFT) | (size
        << arch.spec_size_shift())
}

/// The identifier made of a direction value, a type identifier, a call identifier and a
/// size value.
///
/// The order of the parameters is that of the `_IOC()` macro of the C headers, not that of
/// the fields. No value is held to the width of its field: a value that is wider than its
/// field runs into the fields above it, as it does in the C macro.
#[verifier::when_used_as_spec(ioc_spec)]
pub fn ioc(arch: Arch, dir: u64, ty: u64, nr: u64, size: u64) -> (id: u64)
    ensures
        id == ioc_spec(arch, dir, ty, nr, size),
{
    (dir << arch.dir_shift()) | (ty << IOC_TYPESHIFT) | (nr << IOC_NRSHIFT) | (size
        << arch.size_shift())
}

/// The size value that stands for a payload of type `T`: its size in bytes.
pub fn ioc_typecheck<T>() -> (size: u64)
    ensures
        size == vstd::layout::size_of::<T>(),
{
    core::mem::size_of::<T>() as u64
}

/// The identifier of a call that passes no data. The equivalent of the `_IO()` macro of
/// the C headers.
pub fn io(arch: Arch, ty: u64, nr: u64) -> (id: u64)
    ensures
        id == ioc_spec(arch, arch.spec_none(), ty, nr, 0),
{
    ioc(arch, arch.none(), ty, nr, 0)
}

/// The identifier of a call that reads data of type `T`. The equivalent of the `_IOR()`
/// macro of the C headers.
pub fn ior<T>(arch: Arch, ty: u64, nr: u64) -> (id: u64)
    ensures
        id == ioc_spec(arch, IOC_READ, ty, nr, vstd::layout::size_of::<T>() as u64),
{
    ioc(arch, IOC_READ, ty, nr, ioc_typecheck::<T>())
}

/// The identifier of a call that writes data of type `T`. The equivalent of the `_IOW()`
/// macro of the C headers.
pub fn iow<T>(arch: Arch, ty: u64, nr: u64) -> (id: u64)
    ensures
        id == ioc_spec(arch, arch.spec_write(), ty, nr, vstd::layout::size_of::<T>() as u64),
{
    ioc(arch, arch.write(), ty, nr, ioc_typecheck::<T>())
}

/// The identifier of a call that reads and writes data of type `T`. The equivalent of the
/// `_IOWR()` macro of the C headers.
pub fn iowr<T>(arch: Arch, ty: u64, nr: u64) -> (id: u64)
    ensures
        id == ioc_spec(
            arch,
            IOC_READ | arch.spec_write(),
            ty,
            nr,
            vstd::layout::size_of::<T>() as u64,
        ),
{
    ioc(arch, IOC_READ | arch.write(), ty, nr, ioc_typecheck::<T>())
}

/// The direction field of an identifier.
pub open spec fn ioc_dir_spec(arch: Arch, id: u64) -> u64 {
    (id >> arch.spec_dir_shift()) & arch.spec_dir_mask()
}

/// The type field of an identifier.
pub open spec fn ioc_type_spec(id: u64) -> u64 {
    (id >> IOC_TYPESHIFT) & IOC_TYPEMASK
}

/// The call number field of an identifier.
pub open spec fn ioc_nr_spec(id: u64) -> u64 {
    (id >> IOC_NRSHIFT) & IOC_NRMASK
}

/// The size field of an identifier.
pub open spec fn ioc_size_spec(arch: Arch, id: u64) -> u64 {
    (id >> arch.spec_size_shift()) & arch.spec_size_mask()
}

/// Decode the direction value from an identifier. The equivalent of the `_IOC_DIR()` macro
/// of the C headers.
#[verifier::when_used_as_spec(ioc_dir_spec)]
pub fn ioc_dir(arch: Arch, id: u64) -> (dir: u64)
    ensures
        dir == ioc_dir_spec(arch, id),
        dir <= arch.spec_dir_mask(),
{
    proof {
        lemma_decoded_fields_in_range(arch, id);
    }
    (id >> arch.dir_shift()) & arch.dir_mask()
}

/// Decode the type identifier from an identifier. The equivalent of the `_IOC_TYPE()` macro
/// of the C headers.
#[verifier::when_used_as_spec(ioc_type_spec)]
pub fn ioc_type(id: u64) -> (ty: u64)
    ensures
        ty == ioc_type_spec(id),
        ty <= IOC_TYPEMASK,
{
    proof {
        lemma_decoded_fields_in_range(Arch::Generic, id);
    }
    (id >> IOC_TYPESHIFT) & IOC_TYPEMASK
}

/// Decode the call identifier from an identifier. The equivalent of the `_IOC_NR()` macro
/// of the C headers.
#[verifier::when_used_as_spec(ioc_nr_spec)]
pub fn ioc_nr(id: u64) -> (nr: u64)
    ensures
        nr == ioc_nr_spec(id),
        nr <= IOC_NRMASK,
{
    proof {
        lemma_decoded_fields_in_range(Arch::Generic, id);
    }
    (id >> IOC_NRSHIFT) & IOC_NRMASK
}

/// Decode the size value from an identifier. The equivalent of the `_IOC_SIZE()` macro of
/// the C headers.
#[verifier::when_used_as_spec(ioc_size_spec)]
pub fn ioc_size(arch: Arch, id: u64) -> (size: u64)
    ensures
        size == ioc_size_spec(arch, id),
        size <= arch.spec_size_mask(),
{
    proof {
        lemma_decoded_fields_in_range(arch, id);
    }
    (id >> arch.size_shift()) & arch.size_mask()
}

/// Each of the four values is inside the width of its field.
pub open spec fn fields_in_range(arch: Arch, dir: u64, ty: u64, nr: u64, size: u64) -> bool {
    &&& dir <= arch.spec_dir_mask()
    &&& ty <= IOC_TYPEMASK
    &&& nr <= IOC_NRMASK
    &&& size <= arch.spec_size_mask()
}

/// On 32-bit SPARC the highest bit of the type field is the lowest bit of the size field.
/// This says that a type identifier and a size value ask the same of that bit; on every
/// other family it holds of all values.
pub open spec fn shared_bit_agrees(arch: Arch, ty: u64, size: u64) -> bool {
    arch == Arch::Sparc ==> (ty >> 7) & 1 == size & 1
}

/// The widths of the size and direction fields as powers of two.
proof fn lemma_field_widths()
    by (bit_vector)
    ensures
        (1u64 << 13u64) == 0x2000,
        (1u64 << 14u64) == 0x4000,
        (1u64 << 2u64) == 4,
        (1u64 << 3u64) == 8,
{
}

/// Fields that do not overlap come back as they went in.
proof fn lemma_round_trip_disjoint(
    dir: u64,
    ty: u64,
    nr: u64,
    size: u64,
    ds: u64,
    dm: u64,
    sm: u64,
)
    by (bit_vector)
    requires
        (ds == 29 && sm == 0x1fff) || (ds == 30 && sm == 0x3fff),
        dm == 3 || dm == 7,
        dir <= dm,
        ty <= 0xff,
        nr <= 0xff,
        size <= sm,
    ensures
        ((((dir << ds) | (ty << 8u64) | (nr << 0u64) | (size << 16u64)) >> ds) & dm) == dir,
        ((((dir << ds) | (ty << 8u64) | (nr << 0u64) | (size << 16u64)) >> 8u64) & 0xff) == ty,
        ((((dir << ds) | (ty << 8u64) | (nr << 0u64) | (size << 16u64)) >> 0u64) & 0xff) == nr,
        ((((dir << ds) | (ty << 8u64) | (nr << 0u64) | (size << 16u64)) >> 16u64) & sm) == size,
{
}

/// What comes back on 32-bit SPARC, where the type and size fields share bit 15.
proof fn lemma_round_trip_sparc(dir: u64, ty: u64, nr: u64, size: u64)
    by (bit_vector)
    requires
        dir <= 7,
        ty <= 0xff,
        nr <= 0xff,
        size <= 0x3fff,
    ensures
        ((((dir << 29u64) | (ty << 8u64) | (nr << 0u64) | (size << 15u64)) >> 29u64) & 7) == dir,
        ((((dir << 29u64) | (ty << 8u64) | (nr << 0u64) | (size << 15u64)) >> 8u64) & 0xff) == (ty
            | ((size & 1) << 7u64)),
        ((((dir << 29u64) | (ty << 8u64) | (nr << 0u64) | (size << 15u64)) >> 0u64) & 0xff) == nr,
        ((((dir << 29u64) | (ty << 8u64) | (nr << 0u64) | (size << 15u64)) >> 15u64) & 0x3fff)
            == (size | (ty >> 7u64)),
        (ty >> 7u64) & 1 == size & 1 ==> (ty | ((size & 1) << 7u64)) == ty && (size | (ty
            >> 7u64)) == size,
        (ty >> 7u64) & 1 != size & 1 ==> (ty | ((size & 1) << 7u64)) != ty || (size | (ty
            >> 7u64)) != size,
{
}

/// Round trip: every value that is inside the width of its field is decoded from the
/// identifier as it was encoded in it, on every architecture family.
///
/// On 32-bit SPARC this holds of those type identifiers and size values that agree on the
/// bit that the two fields share, and of no others.
pub proof fn lemma_ioc_round_trip(arch: Arch, dir: u64, ty: u64, nr: u64, size: u64)
    requires
        fields_in_range(arch, dir, ty, nr, size),
        shared_bit_agrees(arch, ty, size),
    ensures
        ioc_dir_spec(arch, ioc_spec(arch, dir, ty, nr, size)) == dir,
        ioc_type_spec(ioc_spec(arch, dir, ty, nr, size)) == ty,
        ioc_nr_spec(ioc_spec(arch, dir, ty, nr, size)) == nr,
        ioc_size_spec(arch, ioc_spec(arch, dir, ty, nr, size)) == size,
{
    if arch == Arch::Sparc {
        lemma_round_trip_sparc(dir, ty, nr, size);
    } else {
        lemma_round_trip_disjoint(
            dir,
            ty,
            nr,
            size,
            arch.spec_dir_shift(),
            arch.spec_dir_mask(),
            arch.spec_size_mask(),
        );
    }
}

/// What is decoded on 32-bit SPARC from an identifier made of values inside their widths:
/// the direction and the call number as they went in, the type identifier with the lowest
/// bit of the size value joined into its highest bit, and the size value with the highest
/// bit of the type identifier joined into its lowest bit. So the round trip fails there
/// exactly when the two disagree on the shared bit.
pub proof fn lemma_ioc_sparc_shared_bit(dir: u64, ty: u64, nr: u64, size: u64)
    requires
        fields_in_range(Arch::Sparc, dir, ty, nr, size),
    ensures
        ioc_dir_spec(Arch::Sparc, ioc_spec(Arch::Sparc, dir, ty, nr, size)) == dir,
        ioc_nr_spec(ioc_spec(Arch::Sparc, dir, ty, nr, size)) == nr,
        ioc_type_spec(ioc_spec(Arch::Sparc, dir, ty, nr, size)) == ty | ((size & 1) << 7),
        ioc_size_spec(Arch::Sparc, ioc_spec(Arch::Sparc, dir, ty, nr, size)) == size | (ty >> 7),
        !shared_bit_agrees(Arch::Sparc, ty, size) ==> ioc_type_spec(
            ioc_spec(Arch::Sparc, dir, ty, nr, size),
        ) != ty || ioc_size_spec(Arch::Sparc, ioc_spec(Arch::Sparc, dir, ty, nr, size)) != size,
{
    lemma_round_trip_sparc(dir, ty, nr, size);
}

/// An identifier has no bit set above its direction field.
pub open spec fn id_in_range(arch: Arch, id: u64) -> bool {
    id >> ((arch.spec_dir_shift() + arch.spec_dir_bits()) as u64) == 0
}

/// Fields that are taken out of an identifier and put together again.
proof fn lemma_repack(id: u64, ds: u64, db: u64, dm: u64, ss: u64, sm: u64)
    by (bit_vector)
    requires
        (ss == 16 && ds == 29 && sm == 0x1fff) || (ss == 16 && ds == 30 && sm == 0x3fff) || (ss
            == 15 && ds == 29 && sm == 0x3fff),
        (db == 2 && dm == 3) || (db == 3 && dm == 7),
        id >> ((ds + db) as u64) == 0,
    ensures
        ((((id >> ds) & dm) << ds) | (((id >> 8u64) & 0xff) << 8u64) | (((id >> 0u64) & 0xff)
            << 0u64) | (((id >> ss) & sm) << ss)) == id,
{
}

/// A value that is cut down to a mask is no more than the mask.
proof fn lemma_masked(x: u64, m: u64)
    by (bit_vector)
    ensures
        x & m <= m,
{
}

/// An identifier made of values inside their widths, with the direction field ending at or
/// below bit 31, has no bit set above bit 31.
proof fn lemma_pack_fits_u32(dir: u64, ty: u64, nr: u64, size: u64, ds: u64, dm: u64, ss: u64)
    by (bit_vector)
    requires
        (ds == 29 && dm <= 7) || (ds == 30 && dm <= 3),
        ss == 15 || ss == 16,
        dir <= dm,
        ty <= 0xff,
        nr <= 0xff,
        size <= 0x3fff,
    ensures
        ((dir << ds) | (ty << 8u64) | (nr << 0u64) | (size << ss)) <= 0xffff_ffff,
{
}

/// Whatever the identifier, each decoded value is inside the width of its field.
pub proof fn lemma_decoded_fields_in_range(arch: Arch, id: u64)
    ensures
        fields_in_range(
            arch,
            ioc_dir_spec(arch, id),
            ioc_type_spec(id),
            ioc_nr_spec(id),
            ioc_size_spec(arch, id),
        ),
{
    lemma_masked(id >> arch.spec_dir_shift(), arch.spec_dir_mask());
    lemma_masked(id >> IOC_TYPESHIFT, IOC_TYPEMASK);
    lemma_masked(id >> IOC_NRSHIFT, IOC_NRMASK);
    lemma_masked(id >> arch.spec_size_shift(), arch.spec_size_mask());
}

/// The other round trip: an identifier with no bit set above its direction field is the
/// one that its four decoded values encode, on every architecture family.
pub proof fn lemma_ioc_of_decoded(arch: Arch, id: u64)
    requires
        id_in_range(arch, id),
    ensures
        ioc_spec(
            arch,
            ioc_dir_spec(arch, id),
            ioc_type_spec(id),
            ioc_nr_spec(id),
            ioc_size_spec(arch, id),
        ) == id,
{
    lemma_repack(
        id,
        arch.spec_dir_shift(),
        arch.spec_dir_bits(),
        arch.spec_dir_mask(),
        arch.spec_size_shift(),
        arch.spec_size_mask(),
    );
}

/// An identifier made of values inside their widths fits in 32 bits on every family but
/// 64-bit SPARC, whose direction field reaches bit 32.
pub proof fn lemma_ioc_fits_u32(arch: Arch, dir: u64, ty: u64, nr: u64, size: u64)
    requires
        fields_in_range(arch, dir, ty, nr, size),
        arch != Arch::Sparc64,
    ensures
        ioc_spec(arch, dir, ty, nr, size) <= u32::MAX,
{
    lemma_pack_fits_u32(
        dir,
        ty,
        nr,
        size,
        arch.spec_dir_shift(),
        arch.spec_dir_mask(),
        arch.spec_size_shift(),
    );
}

} // verus!
