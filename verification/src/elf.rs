use vstd::prelude::*;

verus! {

/// Kinds of failure that can arise while loading an ELF image.
///
/// All of them are detected before any process state is mutated, so a
/// caller can always recover by reporting the error and exiting.
#[derive(Clone, Copy, PartialEq, Eq, Structural, Debug)]
pub enum ElfError {
    /// A file could not be opened or read.
    IoFailure,
    /// The buffer is truncated or structurally invalid ELF data.
    MalformedImage,
    /// The program-header table is empty, so no base address exists.
    MissingSegments,
}

/// Size in bytes of a 32-bit ELF file header.
pub const EHDR_SIZE: usize = 52;

/// Size in bytes of one 32-bit program-header entry.
pub const PHDR_SIZE: usize = 32;

/// Byte offset of `e_entry` within the ELF header.
pub const E_ENTRY_OFFSET: usize = 24;

/// Byte offset of `e_phoff` within the ELF header.
pub const E_PHOFF_OFFSET: usize = 28;

/// Byte offset of `e_phnum` within the ELF header.
pub const E_PHNUM_OFFSET: usize = 44;

/// Segment is executable.
pub const PF_X: u32 = 1;

/// Segment is writable.
pub const PF_W: u32 = 2;

/// Segment is readable.
pub const PF_R: u32 = 4;

/// The little-endian 16-bit value stored at byte offset `off` of `b`.
pub open spec fn le16_at(b: Seq<u8>, off: int) -> int {
    b[off] + b[off + 1] * 0x100
}

/// The little-endian 32-bit value stored at byte offset `off` of `b`.
pub open spec fn le32_at(b: Seq<u8>, off: int) -> int {
    b[off] + b[off + 1] * 0x100 + b[off + 2] * 0x10000 + b[off + 3] * 0x1000000
}

/// The `e_entry` field of the ELF header at the start of `b`.
pub open spec fn spec_entry(b: Seq<u8>) -> int {
    le32_at(b, E_ENTRY_OFFSET as int)
}

/// The `e_phoff` field of the ELF header at the start of `b`.
pub open spec fn spec_phoff(b: Seq<u8>) -> int {
    le32_at(b, E_PHOFF_OFFSET as int)
}

/// The `e_phnum` field of the ELF header at the start of `b`.
pub open spec fn spec_phnum(b: Seq<u8>) -> int {
    le16_at(b, E_PHNUM_OFFSET as int)
}

/// `b` starts with a complete 32-bit ELF header: the magic bytes
/// `0x7f 'E' 'L' 'F'` and the 32-bit class marker.
pub open spec fn header_ok(b: Seq<u8>) -> bool {
    &&& b.len() >= EHDR_SIZE
    &&& b[0] == 0x7fu8
    &&& b[1] == 0x45u8
    &&& b[2] == 0x4cu8
    &&& b[3] == 0x46u8
    &&& b[4] == 1u8
}

/// The whole program-header table announced by the header lies inside `b`.
pub open spec fn table_ok(b: Seq<u8>) -> bool {
    spec_phoff(b) + spec_phnum(b) * PHDR_SIZE <= b.len()
}

/// `b` is structurally sound ELF data: valid header, and no program-header
/// read can fall outside the buffer.
pub open spec fn image_ok(b: Seq<u8>) -> bool {
    header_ok(b) && table_ok(b)
}

/// Byte offset of program-header entry `i` within `b`.
pub open spec fn phdr_offset(b: Seq<u8>, i: int) -> int {
    spec_phoff(b) + PHDR_SIZE * i
}

/// One program-header entry of an ELF image: a region of the file that the
/// collaborator which mapped the image has placed (and zero-filled beyond
/// `length` bytes, up to `size`) at `address`.
pub struct Segment {
    /// Virtual address of the region (`p_vaddr`).
    pub address: usize,
    /// Size of the region in memory (`p_memsz`).
    pub size: usize,
    /// Offset of the region's bytes within the file (`p_offset`).
    pub offset: usize,
    /// Number of bytes the file provides for the region (`p_filesz`).
    pub length: usize,
    /// Permission bitmask (`p_flags`): the `PF_R`, `PF_W` and `PF_X` bits.
    pub flags: u32,
}

/// `s` holds exactly the fields of program-header entry `i` of `b`.
pub open spec fn segment_matches(b: Seq<u8>, i: int, s: Segment) -> bool {
    &&& s.address == le32_at(b, phdr_offset(b, i) + 8)
    &&& s.size == le32_at(b, phdr_offset(b, i) + 20)
    &&& s.offset == le32_at(b, phdr_offset(b, i) + 4)
    &&& s.length == le32_at(b, phdr_offset(b, i) + 16)
    &&& s.flags == le32_at(b, phdr_offset(b, i) + 24)
}

/// `base` is the minimum virtual address over all segments of `segs`.
pub open spec fn is_min_address(segs: Seq<Segment>, base: usize) -> bool {
    &&& exists|j: int| 0 <= j < segs.len() && #[trigger] segs[j].address == base
    &&& forall|j: int| 0 <= j < segs.len() ==> base <= #[trigger] segs[j].address
}

/// Parsed view of one ELF image, immutable once constructed.
pub struct ElfFile {
    /// The program-header entries, in on-disk order.
    pub segments: Vec<Segment>,
    /// Minimum virtual address over all segments; the image is assumed to
    /// be mapped consistently with it (no relocation is performed).
    pub base_address: usize,
    /// The header's `e_entry`, copied verbatim.
    pub entry_point: usize,
}

/// The permission triplet rendered for display: `r`, `w`, `x`, each
/// replaced by `-` when the corresponding bit of `f` is clear.
pub open spec fn spec_flags_string(f: u32) -> Seq<char> {
    seq![
        if f & PF_R != 0 { 'r' } else { '-' },
        if f & PF_W != 0 { 'w' } else { '-' },
        if f & PF_X != 0 { 'x' } else { '-' },
    ]
}

impl Segment {
    /// Renders the permission bitmask as the conventional three-character
    /// indicator, e.g. `r-x` for a readable, executable segment.
    pub fn flags_string(&self) -> (s: String)
        ensures
            s@ == spec_flags_string(self.flags),
    {
        let r = self.flags & PF_R != 0;
        let w = self.flags & PF_W != 0;
        let x = self.flags & PF_X != 0;
        let s = match (r, w, x) {
            (false, false, false) => "---",
            (false, false, true) => "--x",
            (false, true, false) => "-w-",
            (false, true, true) => "-wx",
            (true, false, false) => "r--",
            (true, false, true) => "r-x",
            (true, true, false) => "rw-",
            (true, true, true) => "rwx",
        };
        proof {
            reveal_strlit("---");
            reveal_strlit("--x");
            reveal_strlit("-w-");
            reveal_strlit("-wx");
            reveal_strlit("r--");
            reveal_strlit("r-x");
            reveal_strlit("rw-");
            reveal_strlit("rwx");
            assert(s@ =~= spec_flags_string(self.flags));
        }
        s.to_owned()
    }
}

/// Address of the loaded image's program-header table: the base address
/// the image was mapped at plus the header's `e_phoff`. `None` exactly
/// when that address does not fit the word size.
pub fn phdr_address(base_address: usize, phoff: usize) -> (r: Option<usize>)
    ensures
        match r {
            Some(a) => a == base_address + phoff,
            None => base_address + phoff > usize::MAX,
        },
{
    if phoff <= usize::MAX - base_address {
        Some(base_address + phoff)
    } else {
        None
    }
}

/// Reads the little-endian 16-bit value at byte offset `off` of `b`.
fn read_u16_le(b: &Vec<u8>, off: usize) -> (r: u16)
    requires
        off + 2 <= b@.len(),
    ensures
        r == le16_at(b@, off as int),
{
    let n = b.len();
    assert(off + 2 <= n);
    let b0 = b[off] as u16;
    let b1 = b[off + 1] as u16;
    b0 + b1 * 0x100
}

/// Reads the little-endian 32-bit value at byte offset `off` of `b`.
fn read_u32_le(b: &Vec<u8>, off: usize) -> (r: u32)
    requires
        off + 4 <= b@.len(),
    ensures
        r == le32_at(b@, off as int),
{
    let n = b.len();
    assert(off + 4 <= n);
    let b0 = b[off] as u32;
    let b1 = b[off + 1] as u32;
    let b2 = b[off + 2] as u32;
    let b3 = b[off + 3] as u32;
    b0 + b1 * 0x100 + b2 * 0x10000 + b3 * 0x1000000
}

/// Interprets `buffer` as a complete 32-bit ELF image and produces its
/// descriptor: all program-header entries in file order, the minimum
/// virtual address among them as the base address, and the entry point
/// copied verbatim from the header.
///
/// Fails with `MalformedImage` exactly when the buffer is truncated or not
/// ELF data, and with `MissingSegments` exactly when the (well-formed)
/// image announces an empty program-header table. Never reads out of
/// bounds and performs no side effect.
pub fn parse_elf_file(buffer: &Vec<u8>) -> (r: Result<ElfFile, ElfError>)
    ensures
        r is Ok <==> image_ok(buffer@) && spec_phnum(buffer@) > 0,
        match r {
            Ok(f) => {
                &&& f.segments@.len() == spec_phnum(buffer@)
                &&& forall|i: int|
                    0 <= i < f.segments@.len() ==> segment_matches(
                        buffer@,
                        i,
                        #[trigger] f.segments@[i],
                    )
                &&& is_min_address(f.segments@, f.base_address)
                &&& f.entry_point == spec_entry(buffer@)
            },
            Err(e) => {
                &&& (e == ElfError::MalformedImage <==> !image_ok(buffer@))
                &&& (e == ElfError::MissingSegments <==> image_ok(buffer@) && spec_phnum(buffer@)
                    == 0)
            },
        },
{
    if buffer.len() < EHDR_SIZE {
        return Err(ElfError::MalformedImage);
    }
    if !(buffer[0] == 0x7f && buffer[1] == 0x45 && buffer[2] == 0x4c && buffer[3] == 0x46
        && buffer[4] == 1) {
        return Err(ElfError::MalformedImage);
    }
    let phoff = read_u32_le(buffer, E_PHOFF_OFFSET);
    let phnum = read_u16_le(buffer, E_PHNUM_OFFSET);
    if phoff as u64 + (phnum as u64) * (PHDR_SIZE as u64) > buffer.len() as u64 {
        return Err(ElfError::MalformedImage);
    }
    if phnum == 0 {
        return Err(ElfError::MissingSegments);
    }
    let entry = read_u32_le(buffer, E_ENTRY_OFFSET);

    let count = phnum as usize;
    let mut segments: Vec<Segment> = Vec::new();
    let mut i: usize = 0;
    while i < count
        invariant
            buffer@.len() <= usize::MAX,
            i <= count,
            count == spec_phnum(buffer@),
            phoff == spec_phoff(buffer@),
            image_ok(buffer@),
            segments@.len() == i,
            forall|k: int|
                0 <= k < i ==> segment_matches(buffer@, k, #[trigger] segments@[k]),
        decreases count - i,
    {
        assert((i + 1) * PHDR_SIZE <= spec_phnum(buffer@) * PHDR_SIZE) by (nonlinear_arith)
            requires
                i < spec_phnum(buffer@),
        ;
        let ph: usize = phoff as usize + PHDR_SIZE * i;
        let address = read_u32_le(buffer, ph + 8) as usize;
        let size = read_u32_le(buffer, ph + 20) as usize;
        let offset = read_u32_le(buffer, ph + 4) as usize;
        let length = read_u32_le(buffer, ph + 16) as usize;
        let flags = read_u32_le(buffer, ph + 24);
        segments.push(Segment { address, size, offset, length, flags });
        i += 1;
    }

    let mut base: usize = segments[0].address;
    let mut j: usize = 1;
    while j < segments.len()
        invariant
            1 <= j <= segments@.len(),
            exists|k: int| 0 <= k < j && #[trigger] segments@[k].address == base,
            forall|k: int| 0 <= k < j ==> base <= #[trigger] segments@[k].address,
        decreases segments@.len() - j,
    {
        if segments[j].address < base {
            base = segments[j].address;
        }
        j += 1;
    }

    Ok(ElfFile { segments, base_address: base, entry_point: entry as usize })
}

} // verus!
