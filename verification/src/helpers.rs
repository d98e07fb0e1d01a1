//! Header arithmetic, string transfer steps and native redirection.
use vstd::prelude::*;
use crate::error::AmxError;
use crate::types::{AmxHeader, Cell, UCell, AMX_FUNCSTUBNT_SIZE, AMX_FUNCSTUB_NAME_OFFSET};
use vstd::arithmetic::div_mod::{lemma_div_is_ordered, lemma_mod_multiples_vanish};
use vstd::slice::slice_to_vec;
use vstd::utf8::{decode_utf8, decode_utf8_encode_utf8, encode_utf8, encode_utf8_decode_utf8, encode_utf8_valid_utf8, valid_utf8};

verus! {

/// Check if the AMX header uses a name table (file version >= 7):
/// its definition records have the size of an `AmxFuncStubNt`.
///
/// Equivalent to the C macro `USENAMETABLE(hdr)`.
pub fn use_name_table(hdr: &AmxHeader) -> (uses: bool)
    ensures
        uses == (hdr.defsize == AMX_FUNCSTUBNT_SIZE),
{
    hdr.defsize == 8
}

/// The number of records of `defsize` bytes between two table offsets,
/// as `NUMENTRIES` computes it: the byte distance and the record size
/// are taken as machine words, so a negative distance or record size
/// wraps around.
pub open spec fn spec_num_entries(defsize: i16, field: i32, next_field: i32) -> usize {
    if defsize == 0 {
        0
    } else {
        (((next_field - field) as i32) as usize) / (defsize as usize)
    }
}

/// Count the number of entries between two table offsets.
///
/// Equivalent to the C macro `NUMENTRIES(hdr, field, nextfield)`.
/// `field` and `next_field` are the byte offsets from the header.
pub fn num_entries(hdr: &AmxHeader, field: i32, next_field: i32) -> (n: usize)
    requires
        hdr.defsize != 0 ==> i32::MIN <= next_field - field <= i32::MAX,
    ensures
        n == spec_num_entries(hdr.defsize, field, next_field),
        hdr.defsize == 0 ==> n == 0,
        hdr.defsize > 0 && field <= next_field ==> n == (next_field - field) / (hdr.defsize as int),
{
    if hdr.defsize == 0 {
        return 0;
    }
    let d = hdr.defsize;
    let distance: i32 = next_field - field;
    assert(d != 0 ==> (d as usize) != 0) by (bit_vector);
    (distance as usize) / (d as usize)
}

/// With a positive record size, the entry count of a table grows with the
/// offset of the table that follows it.
pub proof fn law_num_entries_monotone(defsize: i16, field: i32, next1: i32, next2: i32)
    requires
        defsize > 0,
        field <= next1 <= next2,
        next2 - field <= i32::MAX,
    ensures
        spec_num_entries(defsize, field, next1) <= spec_num_entries(defsize, field, next2),
{
    lemma_div_is_ordered(next1 - field, next2 - field, defsize as int);
}

/// Byte offset, from the start of the header, of the record `index` of
/// the table at `table_offset`: the address `GETENTRY` computes.
pub fn entry_offset(hdr: &AmxHeader, table_offset: i32, index: usize) -> (offset: usize)
    requires
        0 <= table_offset,
        0 <= hdr.defsize,
        table_offset + index * hdr.defsize <= usize::MAX,
    ensures
        offset == table_offset + index * hdr.defsize,
{
    let record: usize = hdr.defsize as usize;
    proof {
        assert(0 <= index * record <= table_offset + index * hdr.defsize) by (nonlinear_arith)
            requires
                0 <= table_offset,
                record == hdr.defsize,
                0 <= hdr.defsize,
        ;
    }
    (table_offset as usize) + index * record
}

/// Byte offset, from the start of the header, of the name of the record
/// at `entry_offset`: the name-table offset `nameofs` stored in the
/// record when the header uses a name table, else the inline name that
/// follows the record's address. This is what `GETENTRYNAME` computes.
pub fn entry_name_offset(hdr: &AmxHeader, entry_offset: usize, nameofs: u32) -> (offset: usize)
    requires
        hdr.defsize != AMX_FUNCSTUBNT_SIZE ==> entry_offset + AMX_FUNCSTUB_NAME_OFFSET <= usize::MAX,
    ensures
        hdr.defsize == AMX_FUNCSTUBNT_SIZE ==> offset == nameofs,
        hdr.defsize != AMX_FUNCSTUBNT_SIZE ==> offset == entry_offset + AMX_FUNCSTUB_NAME_OFFSET,
{
    if use_name_table(hdr) {
        nameofs as usize
    } else {
        entry_offset + AMX_FUNCSTUB_NAME_OFFSET
    }
}

/// The number of arguments passed to a native, from the byte count that
/// Pawn stores in `params[0]`: that count divided by the size of a cell,
/// rounded toward zero.
pub fn get_params_count(byte_count: Cell) -> (count: i32)
    ensures
        byte_count >= 0 ==> count == byte_count / 4,
        byte_count < 0 ==> count == -((-byte_count) / 4),
{
    byte_count / 4
}

/// The value of the low 32 bits of `v`, as an unsigned cell.
pub open spec fn low_bits_u32(v: int) -> int {
    v % 0x1_0000_0000
}

/// The signed cell whose 32 bits read as the unsigned value `bits`.
pub open spec fn cell_from_bits(bits: int) -> int {
    if bits < 0x8000_0000 {
        bits
    } else {
        bits - 0x1_0000_0000
    }
}

/// The start of the AMX data segment: `data` when the AMX has a separate
/// data segment (non-null), else `base` plus the header's `dat` offset.
pub open spec fn data_segment(base: usize, data: usize, hdr: AmxHeader) -> int {
    if data != 0 {
        data as int
    } else {
        base + hdr.dat
    }
}

/// `r` is what pushing the physical `address` gives: its distance from
/// the data segment cut to 32 bits, refused with `MemAccess` when that
/// distance is at or beyond the stack top `stp` (both read as unsigned
/// cells).
pub open spec fn push_offset_outcome(
    address: usize,
    base: usize,
    data: usize,
    hdr: AmxHeader,
    stp: Cell,
    r: Result<Cell, AmxError>,
) -> bool {
    let rel = low_bits_u32(address - data_segment(base, data, hdr));
    &&& rel >= low_bits_u32(stp as int) ==> r == Err::<Cell, AmxError>(AmxError::MemAccess)
    &&& rel < low_bits_u32(stp as int) ==> (r matches Ok(x) && x == cell_from_bits(rel))
}

/// The relative AMX address that `amx_PushAddress` pushes for the
/// physical `address`: its distance from the data segment, cut to a cell.
/// Addresses at or beyond the stack top `stp` (compared as unsigned
/// cells) are refused with `MemAccess`.
///
/// `base` and `data` are the AMX's `base` and `data` pointers (0 for
/// null), `stp` its stack top.
pub fn push_address_offset(address: usize, base: usize, data: usize, hdr: &AmxHeader, stp: Cell) -> (r: Result<Cell, AmxError>)
    requires
        data == 0 ==> 0 <= hdr.dat && base + hdr.dat <= usize::MAX,
    ensures
        push_offset_outcome(address, base, data, *hdr, stp, r),
{
    let data_addr: usize = if data != 0 {
        data
    } else {
        base + (hdr.dat as usize)
    };
    let a = address as u64;
    let b = data_addr as u64;
    let diff: u64 = a.wrapping_sub(b);
    let xaddr: Cell = diff as i32;
    let bits: u32 = xaddr as u32;
    let limit: u32 = stp as u32;
    proof {
        assert(bits == diff % 0x1_0000_0000) by (bit_vector)
            requires
                xaddr == diff as i32,
                bits == xaddr as u32,
        ;
        assert(xaddr == cell_from_bits(bits as int)) by (bit_vector)
            requires
                bits == xaddr as u32,
        ;
        assert(limit as int == low_bits_u32(stp as int)) by (bit_vector)
            requires
                limit == stp as u32,
        ;
        if a < b {
            assert(diff == a - b + 0x1_0000_0000_0000_0000);
            lemma_mod_multiples_vanish(0x1_0000_0000, a - b, 0x1_0000_0000);
        }
    }
    if bits >= limit {
        Err(AmxError::MemAccess)
    } else {
        Ok(xaddr)
    }
}

/// The result of an AMX call that returned the status `code`: success
/// for 0, else the error the code stands for.
pub fn status_result(code: i32) -> (r: Result<(), AmxError>)
    ensures
        code == 0 ==> r == Ok::<(), AmxError>(()),
        code != 0 ==> (r matches Err(e) && AmxError::decodes_to(code as int, e)),
{
    if code != 0 {
        Err(AmxError::from_raw(code))
    } else {
        Ok(())
    }
}

// ---------------------------------------------------------
//  C strings
// ---------------------------------------------------------

/// Index of the first NUL byte of `bytes`, or its length if there is none.
pub open spec fn first_nul(bytes: Seq<u8>) -> int
    decreases bytes.len(),
{
    if bytes.len() == 0 || bytes[0] == 0 {
        0
    } else {
        1 + first_nul(bytes.drop_first())
    }
}

/// The text of a NUL-terminated buffer: the bytes before the first NUL
/// (all of them if there is none), decoded as UTF-8; `None` when those
/// bytes are not valid UTF-8.
pub open spec fn c_string_text(buffer: Seq<u8>) -> Option<Seq<char>> {
    let text = buffer.take(first_nul(buffer));
    if valid_utf8(text) {
        Some(decode_utf8(text))
    } else {
        None
    }
}

/// The bytes handed to the AMX for the string `text`: its UTF-8
/// encoding followed by a NUL terminator.
pub open spec fn c_string_bytes(text: Seq<char>) -> Seq<u8> {
    encode_utf8(text) + seq![0u8]
}

/// `n` is the position of the first NUL of `bytes` (its length if none):
/// the one position that has no NUL before it and is a NUL or the end.
pub proof fn lemma_first_nul(bytes: Seq<u8>, n: int)
    requires
        0 <= n <= bytes.len(),
        forall|j: int| 0 <= j < n ==> bytes[j] != 0,
        n == bytes.len() || bytes[n] == 0,
    ensures
        first_nul(bytes) == n,
    decreases bytes.len(),
{
    if n > 0 {
        let rest = bytes.drop_first();
        assert forall|j: int| 0 <= j < n - 1 implies rest[j] != 0 by {
            assert(rest[j] == bytes[j + 1]);
        }
        lemma_first_nul(rest, n - 1);
    }
}

/// `String::from_utf8` (std): succeeds exactly on valid UTF-8 bytes and
/// then holds the characters they encode.
#[verifier::external_body]
fn string_from_utf8(bytes: Vec<u8>) -> (text: Option<String>)
    ensures
        text is Some <==> valid_utf8(bytes@),
        text matches Some(s) ==> s@ == decode_utf8(bytes@),
{
    String::from_utf8(bytes).ok()
}

/// Decode a NUL-terminated buffer copied out of the AMX: the bytes before
/// the first NUL, as UTF-8. Invalid UTF-8 is a `General` error.
pub fn decode_c_string(buffer: Vec<u8>) -> (r: Result<String, AmxError>)
    ensures
        r matches Ok(s) ==> c_string_text(buffer@) == Some(s@),
        r matches Err(e) ==> c_string_text(buffer@) is None && e == AmxError::General,
        r is Ok <==> c_string_text(buffer@) is Some,
{
    let mut buffer = buffer;
    let mut n: usize = 0;
    while n < buffer.len() && buffer[n] != 0
        invariant
            n <= buffer.len(),
            forall|j: int| 0 <= j < n ==> buffer@[j] != 0,
        decreases buffer.len() - n,
    {
        n = n + 1;
    }
    proof {
        lemma_first_nul(buffer@, n as int);
    }
    let ghost whole = buffer@;
    buffer.truncate(n);
    assert(buffer@ == whole.take(first_nul(whole)));
    match string_from_utf8(buffer) {
        Some(s) => Ok(s),
        None => Err(AmxError::General),
    }
}

/// What the AMX reported during a string read, in the order the calls
/// are made.
#[derive(Debug, PartialEq, Eq)]
pub enum ReadStringEvent {
    /// `amx_GetAddr` on the string's address returned `code`.
    AddressResolved { code: i32 },
    /// `amx_StrLen` returned `code` and measured `len` characters.
    LengthMeasured { code: i32, len: i32 },
    /// `amx_GetString` returned `code` and filled `buffer`.
    StringCopied { code: i32, buffer: Vec<u8> },
}

/// The next step of a string read.
#[derive(Debug, PartialEq, Eq)]
pub enum ReadStringAction {
    /// Measure the string with `amx_StrLen`.
    MeasureLength,
    /// Copy the string with `amx_GetString` into a zeroed buffer of
    /// `size` bytes.
    CopyString { size: usize },
    /// The read is over with this result.
    Finish(Result<String, AmxError>),
}

/// The decisions of a string read from the AMX (`amx_GetCString`): given
/// what the last AMX call reported, the next call to make or the result.
///
/// A failing call ends the read with the error its code stands for; an
/// empty or negative length reads as the empty string; the copy takes
/// one byte more than the length, for the terminator, and is decoded
/// with `decode_c_string`.
pub fn read_string_step(event: ReadStringEvent) -> (action: ReadStringAction)
    ensures
        match event {
            ReadStringEvent::AddressResolved { code } => {
                &&& code != 0 ==> (action matches ReadStringAction::Finish(Err(e))
                    && AmxError::decodes_to(code as int, e))
                &&& code == 0 ==> action is MeasureLength
            },
            ReadStringEvent::LengthMeasured { code, len } => {
                &&& code != 0 ==> (action matches ReadStringAction::Finish(Err(e))
                    && AmxError::decodes_to(code as int, e))
                &&& code == 0 && len <= 0 ==> (action matches ReadStringAction::Finish(Ok(s))
                    && s@ == Seq::<char>::empty())
                &&& code == 0 && len > 0 ==> (action matches ReadStringAction::CopyString { size }
                    && size == len + 1)
            },
            ReadStringEvent::StringCopied { code, buffer } => {
                &&& code != 0 ==> (action matches ReadStringAction::Finish(Err(e))
                    && AmxError::decodes_to(code as int, e))
                &&& code == 0 && c_string_text(buffer@) is Some ==> (action matches ReadStringAction::Finish(Ok(s))
                    && c_string_text(buffer@) == Some(s@))
                &&& code == 0 && c_string_text(buffer@) is None ==> (action matches ReadStringAction::Finish(Err(e))
                    && e == AmxError::General)
            },
        },
{
    match event {
        ReadStringEvent::AddressResolved { code } => {
            if code != 0 {
                ReadStringAction::Finish(Err(AmxError::from_raw(code)))
            } else {
                ReadStringAction::MeasureLength
            }
        },
        ReadStringEvent::LengthMeasured { code, len } => {
            if code != 0 {
                ReadStringAction::Finish(Err(AmxError::from_raw(code)))
            } else if len <= 0 {
                ReadStringAction::Finish(Ok(String::new()))
            } else {
                ReadStringAction::CopyString { size: (len as usize) + 1 }
            }
        },
        ReadStringEvent::StringCopied { code, buffer } => {
            if code != 0 {
                ReadStringAction::Finish(Err(AmxError::from_raw(code)))
            } else {
                ReadStringAction::Finish(decode_c_string(buffer))
            }
        },
    }
}

/// Whether `bytes` holds a NUL byte.
fn has_nul(bytes: &[u8]) -> (found: bool)
    ensures
        found <==> bytes@.contains(0u8),
{
    let mut i: usize = 0;
    while i < bytes.len()
        invariant
            i <= bytes.len(),
            forall|j: int| 0 <= j < i ==> bytes@[j] != 0,
        decreases bytes.len() - i,
    {
        if bytes[i] == 0 {
            assert(bytes@[i as int] == 0u8);
            return true;
        }
        i = i + 1;
    }
    false
}

/// The NUL-terminated bytes of `value` (what `CString::new` builds), or
/// `None` when `value` holds a NUL byte and so cannot be a C string.
pub fn to_c_string(value: &str) -> (bytes: Option<Vec<u8>>)
    ensures
        encode_utf8(value@).contains(0u8) ==> bytes is None,
        !encode_utf8(value@).contains(0u8) ==> (bytes matches Some(b) && b@ == c_string_bytes(value@)),
{
    let raw = value.as_bytes();
    if has_nul(raw) {
        None
    } else {
        let mut bytes = slice_to_vec(raw);
        bytes.push(0u8);
        Some(bytes)
    }
}

/// What the AMX reported during a string write, in the order the calls
/// are made.
#[derive(Debug, PartialEq, Eq)]
pub enum WriteStringEvent {
    /// `amx_GetAddr` on the destination address returned `code`.
    AddressResolved { code: i32 },
    /// `amx_SetString` returned `code`.
    StringWritten { code: i32 },
}

/// The next step of a string write.
#[derive(Debug, PartialEq, Eq)]
pub enum WriteStringAction {
    /// Write these NUL-terminated bytes with `amx_SetString`.
    WriteString { bytes: Vec<u8> },
    /// The write is over with this result.
    Finish(Result<(), AmxError>),
}

/// The decisions of a string write into the AMX (`amx_SetCString`):
/// given what the last AMX call reported, the next call to make or the
/// result.
///
/// A failing call ends the write with the error its code stands for; a
/// `value` holding a NUL byte cannot become a C string and is refused
/// with `Params`; otherwise its UTF-8 bytes and a terminator are written.
pub fn write_string_step(value: &str, event: WriteStringEvent) -> (action: WriteStringAction)
    ensures
        match event {
            WriteStringEvent::AddressResolved { code } => {
                &&& code != 0 ==> (action matches WriteStringAction::Finish(Err(e))
                    && AmxError::decodes_to(code as int, e))
                &&& code == 0 && encode_utf8(value@).contains(0u8) ==> action
                    == WriteStringAction::Finish(Err(AmxError::Params))
                &&& code == 0 && !encode_utf8(value@).contains(0u8) ==> (action matches WriteStringAction::WriteString { bytes }
                    && bytes@ == c_string_bytes(value@))
            },
            WriteStringEvent::StringWritten { code } => {
                &&& code == 0 ==> action == WriteStringAction::Finish(Ok(()))
                &&& code != 0 ==> (action matches WriteStringAction::Finish(Err(e))
                    && AmxError::decodes_to(code as int, e))
            },
        },
{
    match event {
        WriteStringEvent::AddressResolved { code } => {
            if code != 0 {
                WriteStringAction::Finish(Err(AmxError::from_raw(code)))
            } else {
                match to_c_string(value) {
                    Some(bytes) => WriteStringAction::WriteString { bytes },
                    None => WriteStringAction::Finish(Err(AmxError::Params)),
                }
            }
        },
        WriteStringEvent::StringWritten { code } => {
            WriteStringAction::Finish(status_result(code))
        },
    }
}

/// Reading back the bytes written for a string gives the string again,
/// whatever follows the terminator in the buffer: for every `text`
/// without a NUL, `c_string_text(c_string_bytes(text) + rest) == Some(text)`.
pub proof fn law_read_back_written_string(text: Seq<char>, rest: Seq<u8>)
    requires
        !encode_utf8(text).contains(0u8),
    ensures
        c_string_text(c_string_bytes(text) + rest) == Some(text),
{
    let enc = encode_utf8(text);
    let buffer = c_string_bytes(text) + rest;
    assert forall|j: int| 0 <= j < enc.len() implies buffer[j] != 0 by {
        assert(buffer[j] == enc[j]);
        if enc[j] == 0 {
            assert(enc.contains(0u8));
        }
    }
    assert(buffer[enc.len() as int] == 0);
    lemma_first_nul(buffer, enc.len() as int);
    assert(buffer.take(enc.len() as int) =~= enc);
    encode_utf8_valid_utf8(text);
    encode_utf8_decode_utf8(text);
}

// ---------------------------------------------------------
//  Native redirection
// ---------------------------------------------------------

/// An entry of an AMX native table: the name (the bytes of its C string,
/// before the terminator) and the address it is bound to.
#[derive(Debug, PartialEq, Eq)]
pub struct NativeEntry {
    pub name: Vec<u8>,
    pub address: UCell,
}

/// Whether two byte strings are equal.
fn bytes_equal(a: &[u8], b: &[u8]) -> (same: bool)
    ensures
        same <==> a@ == b@,
{
    if a.len() != b.len() {
        return false;
    }
    let mut i: usize = 0;
    while i < a.len()
        invariant
            a@.len() == b@.len(),
            i <= a.len(),
            forall|j: int| 0 <= j < i ==> a@[j] == b@[j],
        decreases a.len() - i,
    {
        if a[i] != b[i] {
            return false;
        }
        i = i + 1;
    }
    assert(a@ =~= b@);
    true
}

/// The table `after` and the answer `found` are what redirecting the
/// native named `name` (its bytes) to `to` makes of the table `before`:
/// the first entry with that name gets the address `to`, and `found`
/// holds its index and former address; with no such entry, nothing
/// changes and `found` is `None`.
pub open spec fn redirect_outcome(
    before: Seq<NativeEntry>,
    name: Seq<u8>,
    to: UCell,
    after: Seq<NativeEntry>,
    found: Option<(usize, UCell)>,
) -> bool {
    match found {
        None => {
            &&& after == before
            &&& forall|j: int| 0 <= j < before.len() ==> (#[trigger] before[j]).name@ != name
        },
        Some((i, previous)) => {
            &&& i < before.len()
            &&& before[i as int].name@ == name
            &&& forall|j: int| 0 <= j < i ==> (#[trigger] before[j]).name@ != name
            &&& previous == before[i as int].address
            &&& after == before.update(i as int, NativeEntry { name: before[i as int].name, address: to })
        },
    }
}

/// Redirect a native function (`amx_Redirect`): find the first entry of
/// the native table named `from` and bind it to `to`.
///
/// Returns that entry's index and the address it was bound to before,
/// or `None`, with the table unchanged, when no entry has that name.
/// Only the found entry's address changes.
pub fn redirect_native_entry(natives: &mut Vec<NativeEntry>, from: &str, to: UCell) -> (found: Option<(usize, UCell)>)
    ensures
        redirect_outcome(old(natives)@, encode_utf8(from@), to, final(natives)@, found),
{
    let target = from.as_bytes();
    let mut i: usize = 0;
    while i < natives.len()
        invariant
            i <= natives@.len(),
            natives@ == old(natives)@,
            target@ == encode_utf8(from@),
            forall|j: int| 0 <= j < i ==> (#[trigger] natives@[j]).name@ != encode_utf8(from@),
        decreases natives@.len() - i,
    {
        if bytes_equal(natives[i].name.as_slice(), target) {
            let previous = natives[i].address;
            let ghost before = natives@;
            natives[i].address = to;
            assert(natives@ =~= before.update(i as int, NativeEntry { name: before[i as int].name, address: to }));
            return Some((i, previous));
        }
        i = i + 1;
    }
    None
}

/// Redirecting a native back to the address it had undoes the redirect:
/// the second call finds the same entry, reports the address of the
/// first call, and leaves the table as it was before both.
pub proof fn law_redirect_back_restores(
    t0: Seq<NativeEntry>,
    t1: Seq<NativeEntry>,
    t2: Seq<NativeEntry>,
    name: Seq<u8>,
    to: UCell,
    i: usize,
    previous: UCell,
    found_back: Option<(usize, UCell)>,
)
    requires
        redirect_outcome(t0, name, to, t1, Some((i, previous))),
        redirect_outcome(t1, name, previous, t2, found_back),
    ensures
        t2 == t0,
        found_back == Some((i, to)),
{
    assert(t1[i as int].name@ == name);
    match found_back {
        None => {
            assert(t1[i as int].name@ != name);
        },
        Some((i2, p2)) => {
            if i2 < i {
                assert(t1[i2 as int] == t0[i2 as int]);
            } else if i2 > i {
                assert(t1[i as int].name@ != name);
            }
            assert(t2 =~= t0);
        },
    }
}

/// Redirecting a native that is not in the table changes nothing.
pub proof fn law_redirect_absent_is_noop(
    before: Seq<NativeEntry>,
    name: Seq<u8>,
    to: UCell,
    after: Seq<NativeEntry>,
    found: Option<(usize, UCell)>,
)
    requires
        forall|j: int| 0 <= j < before.len() ==> (#[trigger] before[j]).name@ != name,
        redirect_outcome(before, name, to, after, found),
    ensures
        found is None,
        after == before,
{
    if let Some((i, p)) = found {
        assert(before[i as int].name@ == name);
    }
}

/// An address inside a separate data segment (non-null `data`, wherever it
/// lies relative to `base`) and below the stack top is pushed as its
/// distance from `data`.
pub proof fn law_push_within_separate_data(
    address: usize,
    base: usize,
    data: usize,
    hdr: AmxHeader,
    stp: Cell,
    r: Result<Cell, AmxError>,
)
    requires
        push_offset_outcome(address, base, data, hdr, stp, r),
        data != 0,
        data <= address,
        address - data < stp,
    ensures
        r == Ok::<Cell, AmxError>((address - data) as Cell),
{
}

/// Without a separate data segment (null `data`), an address inside the
/// image's data segment, which starts `hdr.dat` bytes after `base`, and
/// below the stack top is pushed as its distance from that start.
pub proof fn law_push_within_image_data(
    address: usize,
    base: usize,
    hdr: AmxHeader,
    stp: Cell,
    r: Result<Cell, AmxError>,
)
    requires
        push_offset_outcome(address, base, 0, hdr, stp, r),
        base + hdr.dat <= address,
        address - (base + hdr.dat) < stp,
    ensures
        r == Ok::<Cell, AmxError>((address - (base + hdr.dat)) as Cell),
{
}

/// An address at or past the stack top of a separate data segment (and
/// less than 4 GiB past its start) is refused with `MemAccess`.
pub proof fn law_push_refuses_past_stack_top(
    address: usize,
    base: usize,
    data: usize,
    hdr: AmxHeader,
    stp: Cell,
    r: Result<Cell, AmxError>,
)
    requires
        push_offset_outcome(address, base, data, hdr, stp, r),
        data != 0,
        0 <= stp,
        stp <= address - data < 0x1_0000_0000,
    ensures
        r == Err::<Cell, AmxError>(AmxError::MemAccess),
{
}

/// `first_nul` is a position in the buffer with no NUL before it, and
/// either the end of the buffer or a NUL.
pub proof fn lemma_first_nul_bounds(bytes: Seq<u8>)
    ensures
        0 <= first_nul(bytes) <= bytes.len(),
        forall|j: int| 0 <= j < first_nul(bytes) ==> bytes[j] != 0,
        first_nul(bytes) == bytes.len() || bytes[first_nul(bytes)] == 0,
    decreases bytes.len(),
{
    if bytes.len() > 0 && bytes[0] != 0 {
        let rest = bytes.drop_first();
        lemma_first_nul_bounds(rest);
        assert forall|j: int| 0 <= j < first_nul(bytes) implies bytes[j] != 0 by {
            if j > 0 {
                assert(bytes[j] == rest[j - 1]);
            }
        }
    }
}

/// The text read from a buffer is `s` exactly when the buffer holds the
/// UTF-8 encoding of `s`, with no NUL in it, followed by a NUL or by
/// nothing. So a buffer whose bytes before the first NUL are not valid
/// UTF-8 reads as no text at all, and never as a shortened one.
pub proof fn law_c_string_text_exact(buffer: Seq<u8>, s: Seq<char>)
    ensures
        c_string_text(buffer) == Some(s) <==> {
            let enc = encode_utf8(s);
            &&& forall|j: int| 0 <= j < enc.len() ==> enc[j] != 0
            &&& enc.len() <= buffer.len()
            &&& buffer.take(enc.len() as int) == enc
            &&& (enc.len() == buffer.len() || buffer[enc.len() as int] == 0)
        },
{
    let enc = encode_utf8(s);
    lemma_first_nul_bounds(buffer);
    let n = first_nul(buffer);
    let text = buffer.take(n);
    if c_string_text(buffer) == Some(s) {
        decode_utf8_encode_utf8(text);
        assert(enc == text);
        assert forall|j: int| 0 <= j < enc.len() implies enc[j] != 0 by {
            assert(enc[j] == buffer[j]);
        }
    }
    if {
        &&& forall|j: int| 0 <= j < enc.len() ==> enc[j] != 0
        &&& enc.len() <= buffer.len()
        &&& buffer.take(enc.len() as int) == enc
        &&& (enc.len() == buffer.len() || buffer[enc.len() as int] == 0)
    } {
        assert forall|j: int| 0 <= j < enc.len() implies buffer[j] != 0 by {
            assert(buffer.take(enc.len() as int)[j] == buffer[j]);
        }
        lemma_first_nul(buffer, enc.len() as int);
        encode_utf8_valid_utf8(s);
        encode_utf8_decode_utf8(s);
    }
}

/// When some entry of the table has the searched name, the redirect finds
/// the first such entry: it reports that entry's index and former
/// address, binds it to `to`, and leaves every other entry as it was.
pub proof fn law_redirect_finds_first_match(
    before: Seq<NativeEntry>,
    name: Seq<u8>,
    to: UCell,
    after: Seq<NativeEntry>,
    found: Option<(usize, UCell)>,
    j: int,
)
    requires
        redirect_outcome(before, name, to, after, found),
        0 <= j < before.len(),
        before[j].name@ == name,
    ensures
        found matches Some((i, previous)) && {
            &&& i <= j
            &&& before[i as int].name@ == name
            &&& forall|k: int| 0 <= k < i ==> before[k].name@ != name
            &&& previous == before[i as int].address
            &&& after.len() == before.len()
            &&& after[i as int].address == to
            &&& after[i as int].name == before[i as int].name
            &&& forall|k: int| 0 <= k < before.len() && k != i ==> after[k] == before[k]
        },
{
    match found {
        None => {
            assert(before[j].name@ != name);
        },
        Some((i, previous)) => {
            if (i as int) > j {
                assert(before[j].name@ != name);
            }
        },
    }
}

/// The bytes handed over for a text are its UTF-8 encoding and then a
/// single NUL, which is their last byte.
pub proof fn law_c_string_bytes_terminated(text: Seq<char>)
    ensures
        c_string_bytes(text).len() == encode_utf8(text).len() + 1,
        c_string_bytes(text).take(encode_utf8(text).len() as int) == encode_utf8(text),
        c_string_bytes(text)[encode_utf8(text).len() as int] == 0,
{
    assert(c_string_bytes(text).take(encode_utf8(text).len() as int) =~= encode_utf8(text));
}

} // verus!
