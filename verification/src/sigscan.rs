//! Locating the experience counter by its 16-byte signature.
//!
//! The host walks the target's memory regions in ascending order, keeps a
//! moving cursor, and reads eligible regions in 4 KiB chunks; every
//! decision along the way is made here. `find_exp_pattern` scans one chunk
//! for the first 4-byte-aligned exact occurrence of the signature and
//! returns its absolute address; the sought counter value lives at a fixed
//! negative offset from the match, applied by `exp_value_address`.

use vstd::prelude::*;

verus! {

/// Start of the address window worth searching.
pub const SCAN_BASE: u64 = 0x20000000000;

/// Length of the address window worth searching.
pub const SCAN_SPAN: u64 = 0x02000000000;

/// Chunks are read one page at a time: a page either reads fully or not at
/// all, and per-read overhead dominates smaller reads.
pub const CHUNK_SIZE: u64 = 4096;

/// The counter value sits this many bytes before the signature match.
pub const EXP_VALUE_OFFSET: u64 = 4;

/// The fixed 128-bit pattern that sits just after the counter, byte by
/// byte in address order.
pub open spec fn spec_signature() -> Seq<u8> {
    seq![
        0x4au8, 0x00u8, 0x00u8, 0x00u8,
        0xdfu8, 0x1bu8, 0x01u8, 0x00u8,
        0xcau8, 0x10u8, 0x01u8, 0x00u8,
        0x00u8, 0x00u8, 0x00u8, 0x00u8,
    ]
}

/// True when the 16 bytes of `buf` starting at `k` equal the signature.
pub open spec fn spec_matches_at(buf: Seq<u8>, k: int) -> bool {
    &&& 0 <= k
    &&& k + 16 <= buf.len()
    &&& forall|j: int| 0 <= j < 16 ==> #[trigger] buf[k + j] == spec_signature()[j]
}

/// A region is worth reading when its size is page-granular, it reaches
/// past the scan cursor, starts no later than the window's end, and is
/// plain read-write data (executable mappings never hold the counter).
pub open spec fn spec_region_eligible(
    chunk_base: u64,
    chunk_size: u64,
    cursor: u64,
    readable: bool,
    writable: bool,
    executable: bool,
) -> bool {
    &&& chunk_size as int % (CHUNK_SIZE as int) == 0
    &&& chunk_base + chunk_size > cursor
    &&& chunk_base <= SCAN_BASE + SCAN_SPAN
    &&& readable
    &&& writable
    &&& !executable
}

fn signature_byte(j: usize) -> (b: u8)
    requires
        j < 16,
    ensures
        b == spec_signature()[j as int],
{
    match j {
        0 => 0x4a,
        1 => 0x00,
        2 => 0x00,
        3 => 0x00,
        4 => 0xdf,
        5 => 0x1b,
        6 => 0x01,
        7 => 0x00,
        8 => 0xca,
        9 => 0x10,
        10 => 0x01,
        11 => 0x00,
        _ => 0x00,
    }
}

fn window_matches(haystack: &[u8], k: usize) -> (r: bool)
    requires
        haystack@.len() == 4096,
        k + 16 <= haystack@.len(),
    ensures
        r == spec_matches_at(haystack@, k as int),
{
    let mut j: usize = 0;
    while j < 16
        invariant
            j <= 16,
            haystack@.len() == 4096,
            k + 16 <= haystack@.len(),
            forall|i: int| 0 <= i < j ==> #[trigger] haystack@[k + i] == spec_signature()[i],
        decreases 16 - j,
    {
        if haystack[k + j] != signature_byte(j) {
            return false;
        }
        j = j + 1;
    }
    true
}

/// Scans one page-sized buffer for the signature and returns the byte
/// offset of the first 4-byte-aligned exact occurrence.
pub fn compare_equivalence(haystack: &[u8]) -> (r: Option<usize>)
    requires
        haystack@.len() == 4096,
    ensures
        r matches Some(k) ==> k % 4 == 0 && spec_matches_at(haystack@, k as int) && (forall|
            j: int,
        |
            0 <= j < k && j % 4 == 0 ==> !spec_matches_at(haystack@, j)),
        r is None ==> forall|j: int| 0 <= j && j % 4 == 0 ==> !spec_matches_at(haystack@, j),
{
    let mut offset: usize = 0;
    while offset <= 4096 - 16
        invariant
            haystack@.len() == 4096,
            offset % 4 == 0,
            offset <= 4084,
            forall|j: int| 0 <= j < offset && j % 4 == 0 ==> !spec_matches_at(haystack@, j),
        decreases 4096 - offset,
    {
        if window_matches(haystack, offset) {
            return Some(offset);
        }
        offset = offset + 4;
    }
    None
}

/// Scans one chunk read at `chunk_addr` and returns the absolute address
/// of the first 4-byte-aligned signature match inside it. The address is
/// the raw match address; callers apply `exp_value_address` to reach the
/// counter itself.
pub fn find_exp_pattern(chunk_addr: u64, haystack: &[u8]) -> (r: Option<u64>)
    requires
        haystack@.len() == 4096,
        chunk_addr + 4096 <= u64::MAX,
    ensures
        r matches Some(a) ==> chunk_addr <= a && ({
            let k = a - chunk_addr;
            &&& k % 4 == 0
            &&& spec_matches_at(haystack@, k as int)
            &&& forall|j: int| 0 <= j < k && j % 4 == 0 ==> !spec_matches_at(haystack@, j)
        }),
        r is None ==> forall|j: int| 0 <= j && j % 4 == 0 ==> !spec_matches_at(haystack@, j),
{
    match compare_equivalence(haystack) {
        Some(offset) => Some(chunk_addr + offset as u64),
        None => None,
    }
}

/// The address of the counter value belonging to a signature match.
pub fn exp_value_address(match_addr: u64) -> (r: u64)
    requires
        match_addr >= EXP_VALUE_OFFSET,
    ensures
        r == match_addr - EXP_VALUE_OFFSET,
{
    match_addr - EXP_VALUE_OFFSET
}

/// Decides whether a memory region is worth reading at all, given the
/// scan cursor; ineligible regions are skipped whole.
pub fn region_eligible(
    chunk_base: u64,
    chunk_size: u64,
    cursor: u64,
    readable: bool,
    writable: bool,
    executable: bool,
) -> (r: bool)
    requires
        chunk_base + chunk_size <= u64::MAX,
    ensures
        r == spec_region_eligible(chunk_base, chunk_size, cursor, readable, writable, executable),
{
    if chunk_size % CHUNK_SIZE != 0 {
        return false;
    }
    if chunk_base + chunk_size <= cursor || chunk_base > SCAN_BASE + SCAN_SPAN {
        return false;
    }
    readable && writable && !executable
}

/// Where reading an eligible region starts: the scan cursor, advanced past
/// any gap to the region's own base.
pub fn region_start_cursor(cursor: u64, chunk_base: u64) -> (r: u64)
    ensures
        r == (if chunk_base > cursor {
            chunk_base
        } else {
            cursor
        }),
{
    if chunk_base > cursor {
        chunk_base
    } else {
        cursor
    }
}

} // verus!
