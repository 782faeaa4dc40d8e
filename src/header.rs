//! The executable-container header: magic and architecture checks, the
//! identification tags, the entry address and the two header-table offsets.
//!
//! Every multi-byte field is read little-endian, whatever the endianness tag
//! declares; the tag is reported, not honoured.  The ABI tag is read from
//! byte 8 of the identification block.
use vstd::prelude::*;

verus! {

/// Word size of the target.
#[derive(Debug, Default, Clone, Copy, PartialEq, Eq, Structural)]
pub enum FileClass {
    #[default]
    Elf32,
    Elf64,
}

/// Declared byte order.
#[derive(Debug, Default, Clone, Copy, PartialEq, Eq, Structural)]
pub enum Endianness {
    #[default]
    Little,
    Big,
}

/// Platform ABI tag.
#[derive(Debug, Default, Clone, Copy, PartialEq, Eq, Structural)]
pub enum Abi {
    #[default]
    SystemV,
    HPUX,
    NetBSD,
    Linux,
    Solaris,
    AIX,
    IRIX,
    FreeBSD,
    Tru64,
    Novell,
    OpenBSD,
    OpenVMS,
    NonStop,
    AROS,
    Fuchsia,
    Fuchsia64,
    Linux64,
}

/// Object file type.
#[derive(Debug, Default, Clone, Copy, PartialEq, Eq, Structural)]
pub enum FileType {
    /// Executable file.
    #[default]
    Exec,
    /// Relocatable: code and data, not executable by itself.
    Rel,
    /// Shared library.
    Dyn,
    /// Core dump.
    Core,
    /// Operating-system specific.
    Os,
    /// Operating-system specific, high range.
    Hios,
    /// Processor specific.
    Loos,
    /// No file type.
    NoneType,
}

/// Why a buffer is not an acceptable header.
#[derive(Debug, Clone, Copy, PartialEq, Eq, Structural)]
pub enum HeaderError {
    /// The buffer ends before a field that is read.
    TruncatedHeader,
    /// The first four bytes are not the container magic.
    NotContainer,
    /// The machine field is not the RISC-V code.
    WrongArchitecture,
    UnknownClass(u8),
    UnknownEndianness(u8),
    UnknownAbi(u8),
    UnknownFileType(u16),
}

/// The identity of an executable, as its header states it.
#[derive(Debug, Default, Clone, Copy, PartialEq, Eq, Structural)]
pub struct ElfHeader {
    pub class: FileClass,
    pub endianness: Endianness,
    pub abi: Abi,
    pub file_type: FileType,
    /// Entry address.
    pub start: u64,
    /// File offset of the program header table.
    pub phoff: u64,
    /// File offset of the section header table.
    pub shoff: u64,
}

/// Machine code of RISC-V.
pub const MACHINE_RISCV: u16 = 0xF3;

/// Number of leading bytes that the header reader consults.
pub const HEADER_LEN: usize = 0x30;

/// The unsigned number whose little-endian bytes are `s`.
pub open spec fn le_value(s: Seq<u8>) -> nat
    decreases s.len(),
{
    if s.len() == 0 {
        0
    } else {
        s[0] as nat + 256 * le_value(s.drop_first())
    }
}

/// The little-endian field of `len` bytes at `start`.
pub open spec fn le_field(b: Seq<u8>, start: int, len: int) -> nat {
    le_value(b.subrange(start, start + len))
}

/// `256` to the power `n`: one more than the largest value of `n` bytes.
pub open spec fn pow256(n: nat) -> nat
    decreases n,
{
    if n == 0 {
        1
    } else {
        256 * pow256((n - 1) as nat)
    }
}

/// The buffer opens with the container magic `0x7F 'E' 'L' 'F'`.
pub open spec fn has_magic(b: Seq<u8>) -> bool {
    b.len() >= 4 && b[0] == 0x7F && b[1] == 0x45 && b[2] == 0x4C && b[3] == 0x46
}

/// The word-size tag of byte 5.
pub open spec fn class_from(v: u8) -> Result<FileClass, HeaderError> {
    if v == 1 {
        Ok(FileClass::Elf32)
    } else if v == 2 {
        Ok(FileClass::Elf64)
    } else {
        Err(HeaderError::UnknownClass(v))
    }
}

/// The byte-order tag of byte 6.
pub open spec fn endianness_from(v: u8) -> Result<Endianness, HeaderError> {
    if v == 1 {
        Ok(Endianness::Little)
    } else if v == 2 {
        Ok(Endianness::Big)
    } else {
        Err(HeaderError::UnknownEndianness(v))
    }
}

/// The ABI tag.
pub open spec fn abi_from(v: u8) -> Result<Abi, HeaderError> {
    if v == 0x00 { Ok(Abi::SystemV) }
    else if v == 0x01 { Ok(Abi::HPUX) }
    else if v == 0x02 { Ok(Abi::NetBSD) }
    else if v == 0x03 { Ok(Abi::Linux) }
    else if v == 0x04 { Ok(Abi::Solaris) }
    else if v == 0x06 { Ok(Abi::AIX) }
    else if v == 0x07 { Ok(Abi::IRIX) }
    else if v == 0x08 { Ok(Abi::FreeBSD) }
    else if v == 0x09 { Ok(Abi::Tru64) }
    else if v == 0x0A { Ok(Abi::Novell) }
    else if v == 0x0B { Ok(Abi::OpenBSD) }
    else if v == 0x0C { Ok(Abi::OpenVMS) }
    else if v == 0x0D { Ok(Abi::NonStop) }
    else if v == 0x0E { Ok(Abi::AROS) }
    else if v == 0x0F { Ok(Abi::Fuchsia) }
    else if v == 0x10 { Ok(Abi::Fuchsia64) }
    else if v == 0x11 { Ok(Abi::Linux64) }
    else { Err(HeaderError::UnknownAbi(v)) }
}

/// The file-type field at offset 0x10.
pub open spec fn file_type_from(v: u16) -> Result<FileType, HeaderError> {
    if v == 0x0001 { Ok(FileType::Exec) }
    else if v == 0x0002 { Ok(FileType::Rel) }
    else if v == 0x0003 { Ok(FileType::Dyn) }
    else if v == 0x0004 { Ok(FileType::Core) }
    else if v == 0x0005 { Ok(FileType::Os) }
    else if v == 0x0006 { Ok(FileType::Hios) }
    else if v == 0x0007 { Ok(FileType::Loos) }
    else if v == 0xFFFF { Ok(FileType::NoneType) }
    else { Err(HeaderError::UnknownFileType(v)) }
}

/// What a buffer's header states, or the first check that it fails.
pub open spec fn parsed_header(b: Seq<u8>) -> Result<ElfHeader, HeaderError> {
    if b.len() < 4 {
        Err(HeaderError::TruncatedHeader)
    } else if !has_magic(b) {
        Err(HeaderError::NotContainer)
    } else if b.len() < HEADER_LEN {
        Err(HeaderError::TruncatedHeader)
    } else if le_field(b, 0x12, 2) != MACHINE_RISCV {
        Err(HeaderError::WrongArchitecture)
    } else {
        match class_from(b[5]) {
            Err(e) => Err(e),
            Ok(class) => match endianness_from(b[6]) {
                Err(e) => Err(e),
                Ok(endianness) => match abi_from(b[8]) {
                    Err(e) => Err(e),
                    Ok(abi) => match file_type_from(le_field(b, 0x10, 2) as u16) {
                        Err(e) => Err(e),
                        Ok(file_type) => Ok(
                            ElfHeader {
                                class,
                                endianness,
                                abi,
                                file_type,
                                start: le_field(b, 0x18, 8) as u64,
                                phoff: le_field(b, 0x20, 8) as u64,
                                shoff: le_field(b, 0x28, 8) as u64,
                            },
                        ),
                    },
                },
            },
        }
    }
}

impl TryFrom<u8> for FileClass {
    type Error = HeaderError;

    fn try_from(value: u8) -> (r: Result<FileClass, HeaderError>) {
        match value {
            0x01 => Ok(FileClass::Elf32),
            0x02 => Ok(FileClass::Elf64),
            _ => Err(HeaderError::UnknownClass(value)),
        }
    }
}

impl vstd::std_specs::convert::TryFromSpecImpl<u8> for FileClass {
    open spec fn obeys_try_from_spec() -> bool {
        true
    }

    open spec fn try_from_spec(v: u8) -> Result<FileClass, HeaderError> {
        class_from(v)
    }
}

impl TryFrom<u8> for Endianness {
    type Error = HeaderError;

    fn try_from(value: u8) -> (r: Result<Endianness, HeaderError>) {
        match value {
            0x01 => Ok(Endianness::Little),
            0x02 => Ok(Endianness::Big),
            _ => Err(HeaderError::UnknownEndianness(value)),
        }
    }
}

impl vstd::std_specs::convert::TryFromSpecImpl<u8> for Endianness {
    open spec fn obeys_try_from_spec() -> bool {
        true
    }

    open spec fn try_from_spec(v: u8) -> Result<Endianness, HeaderError> {
        endianness_from(v)
    }
}

impl TryFrom<u8> for Abi {
    type Error = HeaderError;

    fn try_from(value: u8) -> (r: Result<Abi, HeaderError>) {
        match value {
            0x00 => Ok(Abi::SystemV),
            0x01 => Ok(Abi::HPUX),
            0x02 => Ok(Abi::NetBSD),
            0x03 => Ok(Abi::Linux),
            0x04 => Ok(Abi::Solaris),
            0x06 => Ok(Abi::AIX),
            0x07 => Ok(Abi::IRIX),
            0x08 => Ok(Abi::FreeBSD),
            0x09 => Ok(Abi::Tru64),
            0x0A => Ok(Abi::Novell),
            0x0B => Ok(Abi::OpenBSD),
            0x0C => Ok(Abi::OpenVMS),
            0x0D => Ok(Abi::NonStop),
            0x0E => Ok(Abi::AROS),
            0x0F => Ok(Abi::Fuchsia),
            0x10 => Ok(Abi::Fuchsia64),
            0x11 => Ok(Abi::Linux64),
            _ => Err(HeaderError::UnknownAbi(value)),
        }
    }
}

impl vstd::std_specs::convert::TryFromSpecImpl<u8> for Abi {
    open spec fn obeys_try_from_spec() -> bool {
        true
    }

    open spec fn try_from_spec(v: u8) -> Result<Abi, HeaderError> {
        abi_from(v)
    }
}

impl TryFrom<u16> for FileType {
    type Error = HeaderError;

    fn try_from(value: u16) -> (r: Result<FileType, HeaderError>) {
        match value {
            0x0001 => Ok(FileType::Exec),
            0x0002 => Ok(FileType::Rel),
            0x0003 => Ok(FileType::Dyn),
            0x0004 => Ok(FileType::Core),
            0x0005 => Ok(FileType::Os),
            0x0006 => Ok(FileType::Hios),
            0x0007 => Ok(FileType::Loos),
            0xFFFF => Ok(FileType::NoneType),
            _ => Err(HeaderError::UnknownFileType(value)),
        }
    }
}

impl vstd::std_specs::convert::TryFromSpecImpl<u16> for FileType {
    open spec fn obeys_try_from_spec() -> bool {
        true
    }

    open spec fn try_from_spec(v: u16) -> Result<FileType, HeaderError> {
        file_type_from(v)
    }
}

/// A buffer shorter than four bytes is rejected as truncated; one of four
/// bytes or more whose first four bytes are not the magic is rejected as not
/// a container, whatever its length.
pub proof fn lemma_magic_checked_first(b: Seq<u8>)
    ensures
        b.len() < 4 ==> parsed_header(b) == Err::<ElfHeader, HeaderError>(
            HeaderError::TruncatedHeader,
        ),
        b.len() >= 4 && !has_magic(b) ==> parsed_header(b) == Err::<ElfHeader, HeaderError>(
            HeaderError::NotContainer,
        ),
{
}

/// An accepted header came from a buffer that holds the magic, every byte
/// that is read, and the RISC-V machine code.
pub proof fn lemma_accepted_header_is_complete(b: Seq<u8>)
    requires
        parsed_header(b) is Ok,
    ensures
        has_magic(b),
        b.len() >= HEADER_LEN,
        le_field(b, 0x12, 2) == MACHINE_RISCV,
{
}

proof fn lemma_pow256_monotonic(a: nat, b: nat)
    requires
        a <= b,
    ensures
        pow256(a) <= pow256(b),
    decreases b,
{
    if a < b {
        lemma_pow256_monotonic(a, (b - 1) as nat);
    }
}

/// Reads the little-endian unsigned field of `len` bytes at `start`.
fn read_le(bytes: &Vec<u8>, start: usize, len: usize) -> (r: u64)
    requires
        len <= 8,
        start + len <= bytes@.len(),
    ensures
        r as nat == le_field(bytes@, start as int, len as int),
        (r as nat) < pow256(len as nat),
{
    let n: usize = bytes.len();
    let mut v: u64 = 0;
    let mut i: usize = len;
    proof {
        assert(bytes@.subrange(start + len, start + len) =~= Seq::<u8>::empty());
    }
    while i > 0
        invariant
            i <= len <= 8,
            start + len <= n,
            n == bytes@.len(),
            v as nat == le_field(bytes@, (start + i) as int, (len - i) as int),
            (v as nat) < pow256((len - i) as nat),
        decreases i,
    {
        let b: u8 = bytes[start + (i - 1)];
        proof {
            let k = (start + i - 1) as int;
            let tail = bytes@.subrange(k, (start + len) as int);
            assert(tail.drop_first() =~= bytes@.subrange(k + 1, (start + len) as int));
            let p = pow256((len - i) as nat);
            assert(v * 256 + b < 256 * p) by (nonlinear_arith)
                requires
                    (v as nat) < p,
                    b < 256,
            ;
            lemma_pow256_monotonic((len - i + 1) as nat, 8);
            reveal_with_fuel(pow256, 9);
            assert(pow256(8) == 0x1_0000_0000_0000_0000);
        }
        v = v * 256 + b as u64;
        i = i - 1;
    }
    v
}

impl ElfHeader {
    /// Validates the header at the start of `bytes` and reads what it states.
    /// Fails with the first check the buffer does not pass, in this order:
    /// length 4, magic, length 0x30, machine, class, endianness, ABI, file type.
    pub fn extract_from_file_bytes(bytes: &Vec<u8>) -> (r: Result<ElfHeader, HeaderError>)
        ensures
            r == parsed_header(bytes@),
    {
        if bytes.len() < 4 {
            return Err(HeaderError::TruncatedHeader);
        }
        if !(bytes[0] == 0x7F && bytes[1] == 0x45 && bytes[2] == 0x4C && bytes[3] == 0x46) {
            return Err(HeaderError::NotContainer);
        }
        if bytes.len() < HEADER_LEN {
            return Err(HeaderError::TruncatedHeader);
        }
        if read_le(bytes, 0x12, 2) != MACHINE_RISCV as u64 {
            return Err(HeaderError::WrongArchitecture);
        }
        let class = match FileClass::try_from(bytes[5]) {
            Ok(c) => c,
            Err(e) => return Err(e),
        };
        let endianness = match Endianness::try_from(bytes[6]) {
            Ok(e) => e,
            Err(e) => return Err(e),
        };
        let abi = match Abi::try_from(bytes[8]) {
            Ok(a) => a,
            Err(e) => return Err(e),
        };
        let type_field = read_le(bytes, 0x10, 2);
        proof {
            reveal_with_fuel(pow256, 3);
            assert(pow256(2) == 0x1_0000);
        }
        let file_type = match FileType::try_from(type_field as u16) {
            Ok(t) => t,
            Err(e) => return Err(e),
        };
        let start = read_le(bytes, 0x18, 8);
        let phoff = read_le(bytes, 0x20, 8);
        let shoff = read_le(bytes, 0x28, 8);
        Ok(ElfHeader { class, endianness, abi, file_type, start, phoff, shoff })
    }
}

} // verus!
