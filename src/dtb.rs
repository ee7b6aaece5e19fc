//! Device tree blob (flattened device tree) scanning.
//!
//! The blob is held as bytes. All multi-byte fields are big-endian, as the format
//! defines them. A read that would leave the blob ends the scan.
use vstd::prelude::*;

verus! {

/// Structure-block token: start of a node.
pub const FDT_BEGIN_NODE: u32 = 1;
/// Structure-block token: end of a node.
pub const FDT_END_NODE: u32 = 2;
/// Structure-block token: a property.
pub const FDT_PROP: u32 = 3;
/// Structure-block token: nothing.
pub const FDT_NOP: u32 = 4;
/// Structure-block token: end of the structure block.
pub const FDT_END: u32 = 9;
/// The magic number that opens every blob.
pub const FDT_MAGIC: u32 = 0xd00d_feed;
/// Size in bytes of the blob header.
pub const FDT_HEADER_SIZE: usize = 40;

/// Memory range assumed when the blob describes none.
pub const DEFAULT_MEMORY_BASE: u64 = 0x8000_0000;
/// Size of the memory range assumed when the blob describes none.
pub const DEFAULT_MEMORY_SIZE: u64 = 0x800_0000;
/// Timer frequency assumed when the blob gives none.
pub const DEFAULT_TIMER_FREQUENCY: u64 = 10_000_000;
/// UART base assumed when the blob gives none.
pub const DEFAULT_UART_BASE: u64 = 0x1000_0000;
/// PLIC base assumed when the blob gives none.
pub const DEFAULT_PLIC_BASE: u64 = 0x0c00_0000;

/// The big-endian 32-bit value of the four bytes at `i`.
pub open spec fn be32(b: Seq<u8>, i: int) -> int {
    b[i] * 16777216 + b[i + 1] * 65536 + b[i + 2] * 256 + b[i + 3]
}

/// The big-endian 64-bit value of the eight bytes at `i`.
pub open spec fn be64(b: Seq<u8>, i: int) -> int {
    be32(b, i) * 4294967296 + be32(b, i + 4)
}

/// The index of the first zero byte at or after `i`, or the length when there is none.
pub open spec fn nul_from(b: Seq<u8>, i: int) -> int
    decreases (if i < b.len() { b.len() - i } else { 0 }),
{
    if i < 0 || i >= b.len() {
        b.len() as int
    } else if b[i] == 0 {
        i
    } else {
        nul_from(b, i + 1)
    }
}

/// Whether the bytes at `at` begin with `prefix`.
pub open spec fn has_prefix(b: Seq<u8>, at: int, prefix: Seq<u8>) -> bool {
    0 <= at && at + prefix.len() <= b.len() && b.subrange(at, at + prefix.len()) == prefix
}

/// Walks the structure block from the token at `pos`, `depth` nodes deep (the root
/// node is at depth one). A node directly under the root whose name begins with
/// `prefix` is matched: `count` counts the matched nodes, and `props` collects the
/// offset of each property header met inside a matched node or its descendants.
pub open spec fn scan(
    b: Seq<u8>,
    pos: int,
    depth: int,
    inside: bool,
    prefix: Seq<u8>,
    count: nat,
    props: Seq<usize>,
) -> (nat, Seq<usize>)
    decreases (if pos < b.len() { b.len() - pos } else { 0 }),
    via scan_decreases
{
    if pos < 0 || pos + 4 > b.len() {
        (count, props)
    } else {
        let tok = be32(b, pos);
        let next = pos + 4;
        if tok == FDT_BEGIN_NODE {
            let nul = nul_from(b, next);
            if nul >= b.len() {
                (count, props)
            } else {
                let hit = depth + 1 == 2 && nul - next >= prefix.len() && has_prefix(b, next, prefix);
                scan(
                    b,
                    next + (nul - next + 4) / 4 * 4,
                    depth + 1,
                    inside || hit,
                    prefix,
                    if hit { count + 1 } else { count },
                    props,
                )
            }
        } else if tok == FDT_END_NODE {
            if depth <= 0 {
                (count, props)
            } else {
                scan(b, next, depth - 1, if depth - 1 < 2 { false } else { inside }, prefix, count, props)
            }
        } else if tok == FDT_PROP {
            if next + 8 > b.len() {
                (count, props)
            } else {
                scan(
                    b,
                    next + 8 + (be32(b, next) + 3) / 4 * 4,
                    depth,
                    inside,
                    prefix,
                    count,
                    if inside { props.push(next as usize) } else { props },
                )
            }
        } else if tok == FDT_NOP {
            scan(b, next, depth, inside, prefix, count, props)
        } else {
            (count, props)
        }
    }
}

/// The first zero byte at or after `i` lies between `i` and the end.
pub proof fn lemma_nul_from_bounds(b: Seq<u8>, i: int)
    requires
        0 <= i,
    ensures
        i <= nul_from(b, i) <= b.len() || (i > b.len() && nul_from(b, i) == b.len()),
    decreases (if i < b.len() { b.len() - i } else { 0 }),
{
    if i < b.len() && b[i] != 0 {
        lemma_nul_from_bounds(b, i + 1);
    }
}

#[via_fn]
proof fn scan_decreases(
    b: Seq<u8>,
    pos: int,
    depth: int,
    inside: bool,
    prefix: Seq<u8>,
    count: nat,
    props: Seq<usize>,
) {
    if 0 <= pos && pos + 4 <= b.len() {
        lemma_nul_from_bounds(b, pos + 4);
    }
}

/// A scan that starts at or past the last whole token finds nothing more.
proof fn lemma_scan_past_end(
    b: Seq<u8>,
    pos: int,
    depth: int,
    inside: bool,
    prefix: Seq<u8>,
    count: nat,
    props: Seq<usize>,
)
    requires
        pos + 4 > b.len(),
    ensures
        scan(b, pos, depth, inside, prefix, count, props) == (count, props),
{
}

/// Reads the big-endian 32-bit value at `i`.
fn read_be32(b: &Vec<u8>, i: usize) -> (r: u32)
    requires
        i + 4 <= b@.len(),
    ensures
        r as int == be32(b@, i as int),
{
    let _n = b.len();
    (b[i] as u32) * 16777216 + (b[i + 1] as u32) * 65536 + (b[i + 2] as u32) * 256 + (b[i + 3] as u32)
}

/// Reads the big-endian 64-bit value at `i`.
fn read_be64(b: &Vec<u8>, i: usize) -> (r: u64)
    requires
        i + 8 <= b@.len(),
    ensures
        r as int == be64(b@, i as int),
{
    let _n = b.len();
    let hi = read_be32(b, i);
    let lo = read_be32(b, i + 4);
    (hi as u64) * 4294967296 + (lo as u64)
}

/// Finds the first zero byte at or after `from`.
fn find_nul(b: &Vec<u8>, from: usize) -> (r: usize)
    requires
        from <= b@.len(),
    ensures
        r as int == nul_from(b@, from as int),
        from <= r <= b@.len(),
{
    let mut i = from;
    while i < b.len()
        invariant
            from <= i <= b@.len(),
            nul_from(b@, i as int) == nul_from(b@, from as int),
        decreases b@.len() - i,
    {
        if b[i] == 0 {
            return i;
        }
        i = i + 1;
    }
    i
}

/// Whether the bytes of `b` at `at` begin with `prefix`.
fn starts_with_at(b: &Vec<u8>, at: usize, prefix: &Vec<u8>) -> (r: bool)
    ensures
        r == has_prefix(b@, at as int, prefix@),
{
    if at > b.len() || prefix.len() > b.len() - at {
        return false;
    }
    let n = b.len();
    let mut k: usize = 0;
    while k < prefix.len()
        invariant
            n == b@.len(),
            k <= prefix@.len(),
            at + prefix@.len() <= b@.len(),
            forall|j: int| 0 <= j < k ==> b@[at + j] == prefix@[j],
        decreases prefix@.len() - k,
    {
        if b[at + k] != prefix[k] {
            assert(b@.subrange(at as int, at + prefix@.len())[k as int] != prefix@[k as int]);
            return false;
        }
        k = k + 1;
    }
    assert(b@.subrange(at as int, at + prefix@.len()) =~= prefix@);
    true
}

/// The bytes of "memory".
pub open spec fn memory_name() -> Seq<u8> {
    seq![109u8, 101, 109, 111, 114, 121]
}

/// The bytes of "cpu".
pub open spec fn cpu_name() -> Seq<u8> {
    seq![99u8, 112, 117]
}

/// The bytes of "timer".
pub open spec fn timer_name() -> Seq<u8> {
    seq![116u8, 105, 109, 101, 114]
}

/// The bytes of "uart".
pub open spec fn uart_name() -> Seq<u8> {
    seq![117u8, 97, 114, 116]
}

/// The bytes of "plic".
pub open spec fn plic_name() -> Seq<u8> {
    seq![112u8, 108, 105, 99]
}

/// The bytes of "reg".
pub open spec fn reg_name() -> Seq<u8> {
    seq![114u8, 101, 103]
}

/// The first fourteen bytes of "clock-frequency", which is how much of a property
/// name is compared.
pub open spec fn clock_frequency_name() -> Seq<u8> {
    seq![99u8, 108, 111, 99, 107, 45, 102, 114, 101, 113, 117, 101, 110, 99]
}

/// A physical memory range described by the blob.
#[derive(Debug, Clone, Copy, PartialEq, Eq, Structural)]
pub struct MemoryRange {
    pub base: u64,
    pub size: u64,
}

/// Why a blob was refused.
#[derive(Debug, Clone, Copy, PartialEq, Eq, Structural)]
pub enum DtbError {
    /// No blob was given.
    Empty,
    /// The blob does not open with the magic number.
    BadMagic,
    /// The blob is shorter than its header.
    TruncatedHeader,
}

/// The facts a valid blob yields, as reported at boot.
pub struct DtbInfo {
    pub memory_ranges: Vec<MemoryRange>,
    pub cpu_count: usize,
    pub timer_frequency: Option<u64>,
    pub uart_base: Option<u64>,
    pub plic_base: Option<u64>,
}

/// What a parser holds, as mathematical values.
pub ghost struct DtbView {
    pub blob: Seq<u8>,
    pub struct_off: int,
    pub strings_off: int,
    pub valid: bool,
}

/// Reads hardware facts out of a device tree blob.
pub struct DtbParser {
    blob: Vec<u8>,
    struct_off: usize,
    strings_off: usize,
    valid: bool,
}

impl View for DtbParser {
    type V = DtbView;

    closed spec fn view(&self) -> DtbView {
        DtbView {
            blob: self.blob@,
            struct_off: self.struct_off as int,
            strings_off: self.strings_off as int,
            valid: self.valid,
        }
    }
}

/// The result of scanning the structure block of `v` for top-level nodes named `prefix...`.
pub open spec fn scan_blob(v: DtbView, prefix: Seq<u8>) -> (nat, Seq<usize>) {
    scan(v.blob, v.struct_off, 0, false, prefix, 0, seq![])
}

/// Whether the property whose header is at `p` has a name beginning with `name`.
pub open spec fn prop_named(v: DtbView, p: int, name: Seq<u8>) -> bool {
    0 <= p && p + 8 <= v.blob.len() && has_prefix(v.blob, v.strings_off + be32(v.blob, p + 4), name)
}

/// How many whole address/size pairs the "reg" property at `p` holds within the blob.
pub open spec fn reg_pair_count(v: DtbView, p: int) -> int {
    let by_len = be32(v.blob, p) / 16;
    let by_blob = (v.blob.len() - (p + 8)) / 16;
    if by_len <= by_blob { by_len } else { by_blob }
}

/// The ranges of the first `n` address/size pairs at `data`, leaving out empty ones.
pub open spec fn reg_ranges(b: Seq<u8>, data: int, n: nat) -> Seq<MemoryRange>
    decreases n,
{
    if n == 0 {
        seq![]
    } else {
        let prev = reg_ranges(b, data, (n - 1) as nat);
        let at = data + 16 * (n - 1);
        let r = MemoryRange { base: be64(b, at) as u64, size: be64(b, at + 8) as u64 };
        if r.size > 0 { prev.push(r) } else { prev }
    }
}

/// The ranges that the "reg" properties among `props` describe, in order.
pub open spec fn memory_ranges_of(v: DtbView, props: Seq<usize>) -> Seq<MemoryRange>
    decreases props.len(),
{
    if props.len() == 0 {
        seq![]
    } else {
        let prev = memory_ranges_of(v, props.drop_last());
        let p = props.last() as int;
        if prop_named(v, p, reg_name()) {
            prev + reg_ranges(v.blob, p + 8, reg_pair_count(v, p) as nat)
        } else {
            prev
        }
    }
}

/// The value of the last property among `props` named `name...` that holds at least
/// `width` bytes (four or eight) within the blob.
pub open spec fn last_value(v: DtbView, props: Seq<usize>, name: Seq<u8>, width: int) -> Option<u64>
    decreases props.len(),
{
    if props.len() == 0 {
        None
    } else {
        let p = props.last() as int;
        if prop_named(v, p, name) && be32(v.blob, p) >= width && p + 8 + width <= v.blob.len() {
            Some(
                if width == 4 {
                    be32(v.blob, p + 8) as u64
                } else {
                    be64(v.blob, p + 8) as u64
                },
            )
        } else {
            last_value(v, props.drop_last(), name, width)
        }
    }
}

/// The memory ranges a parser reports.
pub open spec fn memory_ranges_spec(v: DtbView) -> Seq<MemoryRange> {
    if !v.valid {
        seq![]
    } else {
        let found = memory_ranges_of(v, scan_blob(v, memory_name()).1);
        if found.len() == 0 {
            seq![MemoryRange { base: DEFAULT_MEMORY_BASE, size: DEFAULT_MEMORY_SIZE }]
        } else {
            found
        }
    }
}

/// The number of CPUs a parser reports.
pub open spec fn cpu_count_spec(v: DtbView) -> int {
    if !v.valid {
        1
    } else {
        let c = scan_blob(v, cpu_name()).0;
        if c == 0 { 1 } else { c as int }
    }
}

/// The value a parser reports for the nodes named `node...` and their properties
/// named `prop...` of `width` bytes, or `default` when there is none.
pub open spec fn value_spec(v: DtbView, node: Seq<u8>, prop: Seq<u8>, width: int, default: u64) -> Option<u64> {
    if !v.valid {
        None
    } else {
        match last_value(v, scan_blob(v, node).1, prop, width) {
            Some(x) => Some(x),
            None => Some(default),
        }
    }
}

impl DtbParser {
    /// Checks the header of `dtb` and makes a parser over it.
    pub fn new(dtb: Vec<u8>) -> (r: Result<DtbParser, DtbError>)
        ensures
            dtb@.len() == 0 ==> r == Err::<DtbParser, DtbError>(DtbError::Empty),
            dtb@.len() > 0 && (dtb@.len() < 4 || be32(dtb@, 0) != FDT_MAGIC) ==> r == Err::<
                DtbParser,
                DtbError,
            >(DtbError::BadMagic),
            dtb@.len() >= 4 && be32(dtb@, 0) == FDT_MAGIC && dtb@.len() < FDT_HEADER_SIZE ==> r
                == Err::<DtbParser, DtbError>(DtbError::TruncatedHeader),
            dtb@.len() >= FDT_HEADER_SIZE && be32(dtb@, 0) == FDT_MAGIC ==> r is Ok && r->Ok_0@ == (
            DtbView {
                blob: dtb@,
                struct_off: be32(dtb@, 8),
                strings_off: be32(dtb@, 12),
                valid: true,
            }),
    {
        if dtb.len() == 0 {
            return Err(DtbError::Empty);
        }
        if dtb.len() < 4 || read_be32(&dtb, 0) != FDT_MAGIC {
            return Err(DtbError::BadMagic);
        }
        if dtb.len() < FDT_HEADER_SIZE {
            return Err(DtbError::TruncatedHeader);
        }
        let struct_off = read_be32(&dtb, 8) as usize;
        let strings_off = read_be32(&dtb, 12) as usize;
        Ok(DtbParser { blob: dtb, struct_off, strings_off, valid: true })
    }

    /// A parser over `blob` with the given offsets, marked valid or not, taken as it is.
    pub(crate) fn from_parts(blob: Vec<u8>, struct_off: usize, strings_off: usize, valid: bool) -> (r: DtbParser)
        ensures
            r@ == (DtbView {
                blob: blob@,
                struct_off: struct_off as int,
                strings_off: strings_off as int,
                valid,
            }),
    {
        DtbParser { blob, struct_off, strings_off, valid }
    }

    /// Walks the structure block for top-level nodes whose name begins with `prefix`.
    /// Returns how many there are and the offsets of the property headers inside them.
    fn scan_nodes(&self, prefix: &Vec<u8>) -> (r: (usize, Vec<usize>))
        ensures
            (r.0 as nat, r.1@) == scan_blob(self@, prefix@),
    {
        let b = &self.blob;
        let n = b.len();
        let mut pos = self.struct_off;
        let mut depth: usize = 0;
        let mut inside = false;
        let mut count: usize = 0;
        let mut props: Vec<usize> = Vec::new();
        if pos > n {
            proof {
                lemma_scan_past_end(b@, pos as int, 0, false, prefix@, 0, seq![]);
            }
            return (0, props);
        }
        loop
            invariant
                n == b@.len(),
                b@ == self@.blob,
                pos <= n,
                depth <= pos,
                count <= pos,
                scan(b@, pos as int, depth as int, inside, prefix@, count as nat, props@)
                    == scan_blob(self@, prefix@),
            ensures
                (count as nat, props@) == scan_blob(self@, prefix@),
            decreases n - pos,
        {
            if n - pos < 4 {
                proof {
                    lemma_scan_past_end(b@, pos as int, depth as int, inside, prefix@, count as nat, props@);
                }
                break;
            }
            let tok = read_be32(b, pos);
            let next = pos + 4;
            if tok == FDT_BEGIN_NODE {
                let nul = find_nul(b, next);
                if nul >= n {
                        break;
                }
                let hit = depth == 1 && nul - next >= prefix.len() && starts_with_at(b, next, prefix);
                if hit {
                    count = count + 1;
                    inside = true;
                }
                depth = depth + 1;
                let words = (nul - next) / 4 + 1;
                let ghost after = next + (nul - next + 4) / 4 * 4;
                if words > (n - next) / 4 {
                    proof {
                        lemma_scan_past_end(b@, after, depth as int, inside, prefix@, count as nat, props@);
                        lemma_scan_past_end(b@, n as int, depth as int, inside, prefix@, count as nat, props@);
                    }
                    pos = n;
                } else {
                    pos = next + words * 4;
                }
            } else if tok == FDT_END_NODE {
                if depth == 0 {
                        break;
                }
                depth = depth - 1;
                if depth < 2 {
                    inside = false;
                }
                pos = next;
            } else if tok == FDT_PROP {
                if n - next < 8 {
                        break;
                }
                let plen = read_be32(b, next);
                if inside {
                    props.push(next);
                }
                let words = (plen / 4) as usize + if plen % 4 == 0 { 0usize } else { 1usize };
                let ghost after = next + 8 + (plen + 3) / 4 * 4;
                if words > (n - next - 8) / 4 {
                    proof {
                        lemma_scan_past_end(b@, after, depth as int, inside, prefix@, count as nat, props@);
                        lemma_scan_past_end(b@, n as int, depth as int, inside, prefix@, count as nat, props@);
                    }
                    pos = n;
                } else {
                    pos = next + 8 + words * 4;
                }
            } else if tok == FDT_NOP {
                pos = next;
            } else {
                break;
            }
        }
        (count, props)
    }

    /// Whether the property whose header is at `p` has a name beginning with `name`.
    fn prop_has_name(&self, p: usize, name: &Vec<u8>) -> (r: bool)
        ensures
            r == prop_named(self@, p as int, name@),
    {
        let b = &self.blob;
        let n = b.len();
        if n < 8 || p > n - 8 {
            return false;
        }
        let nameoff = read_be32(b, p + 4) as usize;
        if self.strings_off > n || nameoff > n - self.strings_off {
            return false;
        }
        starts_with_at(b, self.strings_off + nameoff, name)
    }

    /// Appends the ranges of the "reg" property at `p`, if it is one.
    fn parse_memory_property(&self, p: usize, ranges: &mut Vec<MemoryRange>)
        ensures
            final(ranges)@ == old(ranges)@ + if prop_named(self@, p as int, reg_name()) {
                reg_ranges(self@.blob, p + 8, reg_pair_count(self@, p as int) as nat)
            } else {
                seq![]
            },
    {
        let reg = reg_bytes();
        if !self.prop_has_name(p, &reg) {
            assert(old(ranges)@ + seq![] =~= old(ranges)@);
            return;
        }
        let b = &self.blob;
        let n = b.len();
        let data = p + 8;
        let by_len = (read_be32(b, p) / 16) as usize;
        let by_blob = (n - data) / 16;
        let pairs = if by_len <= by_blob { by_len } else { by_blob };
        let ghost start = old(ranges)@;
        let mut k: usize = 0;
        while k < pairs
            invariant
                n == b@.len(),
                b@ == self@.blob,
                data + 16 * pairs <= n,
                k <= pairs,
                ranges@ == start + reg_ranges(b@, data as int, k as nat),
            decreases pairs - k,
        {
            let at = data + 16 * k;
            let base = read_be64(b, at);
            let size = read_be64(b, at + 8);
            if size > 0 {
                ranges.push(MemoryRange { base, size });
            }
            k = k + 1;
            assert(ranges@ =~= start + reg_ranges(b@, data as int, k as nat));
        }
    }

    /// Appends the ranges described by the "reg" properties of the top-level memory nodes.
    fn parse_memory_nodes(&self, ranges: &mut Vec<MemoryRange>)
        ensures
            final(ranges)@ == old(ranges)@ + memory_ranges_of(self@, scan_blob(self@, memory_name()).1),
    {
        let name = memory_bytes();
        let (_, props) = self.scan_nodes(&name);
        let ghost start = old(ranges)@;
        let mut i: usize = 0;
        assert(start + memory_ranges_of(self@, props@.subrange(0, 0)) =~= start);
        while i < props.len()
            invariant
                i <= props@.len(),
                props@ == scan_blob(self@, memory_name()).1,
                ranges@ == start + memory_ranges_of(self@, props@.subrange(0, i as int)),
            decreases props@.len() - i,
        {
            let p = props[i];
            self.parse_memory_property(p, ranges);
            assert(props@.subrange(0, i + 1).drop_last() =~= props@.subrange(0, i as int));
            i = i + 1;
            assert(ranges@ =~= start + memory_ranges_of(self@, props@.subrange(0, i as int)));
        }
        assert(props@.subrange(0, props@.len() as int) =~= props@);
    }

    /// The physical memory ranges the blob describes. When it describes none, the
    /// range of 128 MiB at 0x8000_0000; nothing when the parser is not valid.
    pub fn get_memory_ranges(&self) -> (r: Vec<MemoryRange>)
        ensures
            r@ == memory_ranges_spec(self@),
    {
        let mut ranges: Vec<MemoryRange> = Vec::new();
        if !self.valid {
            return ranges;
        }
        self.parse_memory_nodes(&mut ranges);
        if ranges.len() == 0 {
            ranges.push(MemoryRange { base: DEFAULT_MEMORY_BASE, size: DEFAULT_MEMORY_SIZE });
            assert(ranges@ =~= seq![MemoryRange { base: DEFAULT_MEMORY_BASE, size: DEFAULT_MEMORY_SIZE }]);
        }
        ranges
    }

    /// Counts the top-level nodes whose name begins with "cpu".
    fn parse_cpu_nodes(&self) -> (r: usize)
        ensures
            r == scan_blob(self@, cpu_name()).0,
    {
        let name = cpu_bytes();
        let (count, _) = self.scan_nodes(&name);
        count
    }

    /// The number of CPUs the blob describes; one when it describes none or the
    /// parser is not valid.
    pub fn get_cpu_count(&self) -> (r: usize)
        ensures
            r == cpu_count_spec(self@),
    {
        if !self.valid {
            return 1;
        }
        let count = self.parse_cpu_nodes();
        if count == 0 {
            1
        } else {
            count
        }
    }

    /// The value of the property at `p` if it is named `name...` and holds at least
    /// `width` bytes within the blob.
    fn prop_value(&self, p: usize, name: &Vec<u8>, width: usize) -> (r: Option<u64>)
        requires
            width == 4 || width == 8,
        ensures
            r == (if prop_named(self@, p as int, name@) && be32(self@.blob, p as int) >= width && p + 8
                + width <= self@.blob.len() {
                Some(
                    if width == 4 {
                        be32(self@.blob, p + 8) as u64
                    } else {
                        be64(self@.blob, p + 8) as u64
                    },
                )
            } else {
                None
            }),
    {
        if !self.prop_has_name(p, name) {
            return None;
        }
        let b = &self.blob;
        let n = b.len();
        if (read_be32(b, p) as usize) < width || n - (p + 8) < width {
            return None;
        }
        if width == 4 {
            Some(read_be32(b, p + 8) as u64)
        } else {
            Some(read_be64(b, p + 8))
        }
    }

    /// The value of the last property among `props` named `name...` that holds
    /// `width` bytes.
    fn last_prop_value(&self, props: &Vec<usize>, name: &Vec<u8>, width: usize) -> (r: Option<u64>)
        requires
            width == 4 || width == 8,
        ensures
            r == last_value(self@, props@, name@, width as int),
    {
        let mut i = props.len();
        assert(props@.subrange(0, i as int) =~= props@);
        while i > 0
            invariant
                i <= props@.len(),
                width == 4 || width == 8,
                last_value(self@, props@.subrange(0, i as int), name@, width as int) == last_value(
                    self@,
                    props@,
                    name@,
                    width as int,
                ),
            decreases i,
        {
            let ghost s = props@.subrange(0, i as int);
            assert(s.drop_last() =~= props@.subrange(0, i - 1));
            let v = self.prop_value(props[i - 1], name, width);
            if v.is_some() {
                return v;
            }
            i = i - 1;
        }
        None
    }

    /// The clock frequency given by the top-level timer nodes, if any.
    fn parse_timer_nodes(&self) -> (r: Option<u64>)
        ensures
            r == last_value(self@, scan_blob(self@, timer_name()).1, clock_frequency_name(), 4),
    {
        let (_, props) = self.scan_nodes(&timer_bytes());
        self.last_prop_value(&props, &clock_frequency_bytes(), 4)
    }

    /// The timer frequency in Hz the blob gives; 10 MHz when it gives none;
    /// nothing when the parser is not valid.
    pub fn get_timer_frequency(&self) -> (r: Option<u64>)
        ensures
            r == value_spec(self@, timer_name(), clock_frequency_name(), 4, DEFAULT_TIMER_FREQUENCY),
    {
        if !self.valid {
            return None;
        }
        match self.parse_timer_nodes() {
            Some(f) => Some(f),
            None => Some(DEFAULT_TIMER_FREQUENCY),
        }
    }

    /// The base address in the "reg" property of the top-level UART nodes, if any.
    fn parse_uart_nodes(&self) -> (r: Option<u64>)
        ensures
            r == last_value(self@, scan_blob(self@, uart_name()).1, reg_name(), 8),
    {
        let (_, props) = self.scan_nodes(&uart_bytes());
        self.last_prop_value(&props, &reg_bytes(), 8)
    }

    /// The UART base address the blob gives; 0x1000_0000 when it gives none;
    /// nothing when the parser is not valid.
    pub fn get_uart_base(&self) -> (r: Option<u64>)
        ensures
            r == value_spec(self@, uart_name(), reg_name(), 8, DEFAULT_UART_BASE),
    {
        if !self.valid {
            return None;
        }
        match self.parse_uart_nodes() {
            Some(a) => Some(a),
            None => Some(DEFAULT_UART_BASE),
        }
    }

    /// The base address in the "reg" property of the top-level PLIC nodes, if any.
    fn parse_plic_nodes(&self) -> (r: Option<u64>)
        ensures
            r == last_value(self@, scan_blob(self@, plic_name()).1, reg_name(), 8),
    {
        let (_, props) = self.scan_nodes(&plic_bytes());
        self.last_prop_value(&props, &reg_bytes(), 8)
    }

    /// The PLIC base address the blob gives; 0x0c00_0000 when it gives none;
    /// nothing when the parser is not valid.
    pub fn get_plic_base(&self) -> (r: Option<u64>)
        ensures
            r == value_spec(self@, plic_name(), reg_name(), 8, DEFAULT_PLIC_BASE),
    {
        if !self.valid {
            return None;
        }
        match self.parse_plic_nodes() {
            Some(a) => Some(a),
            None => Some(DEFAULT_PLIC_BASE),
        }
    }
    /// Gathers what is logged about the blob at boot: nothing when the parser is not
    /// valid, else each value the getters report.
    pub fn print_info(&self) -> (r: Option<DtbInfo>)
        ensures
            !self@.valid ==> r is None,
            self@.valid ==> r is Some && r->Some_0.memory_ranges@ == memory_ranges_spec(self@)
                && r->Some_0.cpu_count == cpu_count_spec(self@) && r->Some_0.timer_frequency
                == value_spec(self@, timer_name(), clock_frequency_name(), 4, DEFAULT_TIMER_FREQUENCY)
                && r->Some_0.uart_base == value_spec(self@, uart_name(), reg_name(), 8, DEFAULT_UART_BASE)
                && r->Some_0.plic_base == value_spec(self@, plic_name(), reg_name(), 8, DEFAULT_PLIC_BASE),
    {
        if !self.valid {
            return None;
        }
        Some(
            DtbInfo {
                memory_ranges: self.get_memory_ranges(),
                cpu_count: self.get_cpu_count(),
                timer_frequency: self.get_timer_frequency(),
                uart_base: self.get_uart_base(),
                plic_base: self.get_plic_base(),
            },
        )
    }
}

fn memory_bytes() -> (r: Vec<u8>)
    ensures
        r@ == memory_name(),
{
    let r = vec![109u8, 101, 109, 111, 114, 121];
    assert(r@ =~= memory_name());
    r
}

fn cpu_bytes() -> (r: Vec<u8>)
    ensures
        r@ == cpu_name(),
{
    let r = vec![99u8, 112, 117];
    assert(r@ =~= cpu_name());
    r
}

fn timer_bytes() -> (r: Vec<u8>)
    ensures
        r@ == timer_name(),
{
    let r = vec![116u8, 105, 109, 101, 114];
    assert(r@ =~= timer_name());
    r
}

fn uart_bytes() -> (r: Vec<u8>)
    ensures
        r@ == uart_name(),
{
    let r = vec![117u8, 97, 114, 116];
    assert(r@ =~= uart_name());
    r
}

fn plic_bytes() -> (r: Vec<u8>)
    ensures
        r@ == plic_name(),
{
    let r = vec![112u8, 108, 105, 99];
    assert(r@ =~= plic_name());
    r
}

fn reg_bytes() -> (r: Vec<u8>)
    ensures
        r@ == reg_name(),
{
    let r = vec![114u8, 101, 103];
    assert(r@ =~= reg_name());
    r
}

fn clock_frequency_bytes() -> (r: Vec<u8>)
    ensures
        r@ == clock_frequency_name(),
{
    let r = vec![99u8, 108, 111, 99, 107, 45, 102, 114, 101, 113, 117, 101, 110, 99];
    assert(r@ =~= clock_frequency_name());
    r
}

} // verus!
