//! AMX cell types and the model of the AMX binary header.
use vstd::prelude::*;

verus! {

/// AMX signed cell — 32-bit integer matching Pawn's `cell`.
pub type Cell = i32;

/// AMX unsigned cell — 32-bit unsigned matching Pawn's `ucell`.
pub type UCell = u32;

/// Number of user data slots in an AMX instance.
pub const AMX_USERNUM: usize = 4;

/// Maximum name length for file version <= 6.
pub const S_EXPMAX: usize = 19;

/// Maximum name length of a symbol.
pub const S_NAMEMAX: usize = 31;

/// Byte size of an `AmxFuncStubNt` record in an AMX image
/// (two 4-byte cells, no padding).
pub const AMX_FUNCSTUBNT_SIZE: usize = 8;

/// Byte offset of the inline name within an `AMX_FUNCSTUB` record
/// (it follows the 4-byte address).
pub const AMX_FUNCSTUB_NAME_OFFSET: usize = 4;

/// AMX binary header.
///
/// This is both the on-disk file format and the in-memory format;
/// the server reads it to locate code, data, and tables. The fields
/// hold the values of the packed C `AMX_HEADER`.
#[derive(Clone, Copy, Debug, PartialEq, Eq, Structural)]
pub struct AmxHeader {
    /// Total size of the AMX file/image.
    pub size: i32,
    /// Magic signature (`0xF1E0` for 32-bit cells).
    pub magic: u16,
    /// File format version.
    pub file_version: i8,
    /// Required AMX runtime version.
    pub amx_version: i8,
    /// AMX flags.
    pub flags: i16,
    /// Size of a definition record.
    pub defsize: i16,
    /// Initial value of COD — code block offset.
    pub cod: i32,
    /// Initial value of DAT — data block offset.
    pub dat: i32,
    /// Initial value of HEA — start of the heap.
    pub hea: i32,
    /// Initial value of STP — stack top.
    pub stp: i32,
    /// Initial value of CIP — instruction pointer.
    pub cip: i32,
    /// Offset to the public functions table.
    pub publics: i32,
    /// Offset to the native functions table.
    pub natives: i32,
    /// Offset to the libraries table.
    pub libraries: i32,
    /// Offset to the public variables table.
    pub pubvars: i32,
    /// Offset to the public tag names table.
    pub tags: i32,
    /// Offset to the name table.
    pub nametable: i32,
}

/// Function stub entry with name table offset (file version >= 7).
#[derive(Clone, Copy, Debug, PartialEq, Eq, Structural)]
pub struct AmxFuncStubNt {
    /// Relocated address of the function.
    pub address: UCell,
    /// Offset into the name table for the function name.
    pub nameofs: u32,
}

} // verus!
