//! What the processors read in page-table entries, bit by bit.
use vstd::prelude::*;
use crate::paging::{
    A64Pte, A64Regime, A64_AF, A64_AP_EL0, A64_AP_RO, A64_ATTR_NON_CACHEABLE, A64_ATTR_NORMAL,
    A64_INNER, A64_NON_BLOCK, A64_PHYS_ADDR_MASK, A64_PXN, A64_SHAREABLE, A64_UXN, A64_VALID,
    ArchPagingMeta, LA_D, LA_GH, LA_MATH, LA_MATL, LA_NR, LA_NX, LA_P, LA_PHYS_ADDR_MASK,
    LA_PLVH, LA_PLVL, LA_W, La64Pte, MemAttributes, PagingArch, PteConfig, RV_A, RV_B, RV_C,
    RV_D, RV_PHYS_ADDR_MASK, RV_R, RV_SH, RV_SO, RV_U, RV_V, RV_W, RV_X, Rv64Pte, RvVendor,
    X64Pte, X64_HUGE_PAGE, X64_NO_CACHE, X64_NO_EXECUTE, X64_PHYS_ADDR_MASK, X64_PRESENT,
    X64_USER, X64_WRITABLE, X64_WRITE_THROUGH, a64_execution_bits, a64_memory_bits, flag,
    la_memory_bits, rv_memory_bits, uncached,
};

verus! {

/// Whether one bit of an entry is set.
pub open spec fn bit_set(raw: u64, bit: u64) -> bool {
    (raw >> bit) & 1 == 1
}

proof fn x64_layout(addr: u64, w: bool, u: bool, nc: bool, nx: bool, h: bool)
    by (bit_vector)
    ensures
        ({
            let raw = (addr & X64_PHYS_ADDR_MASK) | (X64_PRESENT | flag(w, X64_WRITABLE) | flag(
                u,
                X64_USER,
            ) | flag(nc, X64_NO_CACHE | X64_WRITE_THROUGH) | flag(nx, X64_NO_EXECUTE) | flag(
                h,
                X64_HUGE_PAGE,
            ));
            &&& (raw >> 0) & 1 == 1
            &&& ((raw >> 1) & 1 == 1) == w
            &&& ((raw >> 2) & 1 == 1) == u
            &&& ((raw >> 3) & 1 == 1) == nc
            &&& ((raw >> 4) & 1 == 1) == nc
            &&& ((raw >> 7) & 1 == 1) == h
            &&& ((raw >> 63) & 1 == 1) == nx
            &&& raw & 0x7ff0_0000_0000_0f60 == 0
            &&& raw & 0x000f_ffff_ffff_f000 == addr & 0x000f_ffff_ffff_f000
        }),
{
}

/// An x86_64 entry that maps memory: bit 0 says that it is there, bit 1 that it
/// can be written, bit 2 that user programs may use it, bits 3 and 4 that it is
/// not cached, bit 7 that it is large, and bit 63 that it cannot be executed.
pub proof fn x64_leaf_layout(config: PteConfig)
    requires
        config.valid,
        !config.is_dir || config.huge,
    ensures
        ({
            let raw = X64Pte::encoding(config);
            let bare = config.mem_attr == MemAttributes::Device || config.mem_attr
                == MemAttributes::Uncached;
            &&& bit_set(raw, 0)
            &&& bit_set(raw, 1) == config.writable
            &&& bit_set(raw, 2) == config.lower
            &&& bit_set(raw, 3) == bare
            &&& bit_set(raw, 4) == bare
            &&& bit_set(raw, 7) == config.huge
            &&& bit_set(raw, 63) == !config.executable
            &&& raw & 0x7ff0_0000_0000_0f60 == 0
            &&& raw & 0x000f_ffff_ffff_f000 == config.paddr & 0x000f_ffff_ffff_f000
        }),
{
    x64_layout(
        config.paddr,
        config.writable,
        config.lower,
        uncached(config.mem_attr),
        !config.executable,
        config.huge,
    );
}

proof fn rv_layout(addr: u64, r: bool, w: bool, x: bool, u: bool, memory: u64)
    by (bit_vector)
    requires
        memory & 0x0fff_ffff_ffff_ffff == 0,
    ensures
        ({
            let raw = ((addr >> 2) & RV_PHYS_ADDR_MASK) | ((RV_V | RV_A | RV_D) | flag(r, RV_R)
                | flag(w, RV_W) | flag(x, RV_X) | flag(u, RV_U) | memory);
            &&& (raw >> 0) & 1 == 1
            &&& ((raw >> 1) & 1 == 1) == r
            &&& ((raw >> 2) & 1 == 1) == w
            &&& ((raw >> 3) & 1 == 1) == x
            &&& ((raw >> 4) & 1 == 1) == u
            &&& (raw >> 5) & 1 == 0
            &&& (raw >> 6) & 1 == 1
            &&& (raw >> 7) & 1 == 1
            &&& (raw >> 10) & 0xfff_ffff_ffff == (addr >> 12) & 0xfff_ffff_ffff
            &&& raw >> 60 == memory >> 60
            &&& (raw >> 54) & 0x3f == 0
        }),
{
}

/// A RISC-V entry that maps memory: bits 0 to 7 say that it is there, can be
/// read, written and executed, that user programs may use it, that it is not
/// for all address spaces, and that it was used and written; the page number
/// begins at bit 10. On a XuanTie C9xx the four topmost bits say how memory
/// behaves: shareable always, strongly ordered for devices, else bufferable,
/// and cacheable unless the memory is uncached.
pub proof fn rv_leaf_layout(config: PteConfig, vendor: RvVendor)
    requires
        config.valid,
        !config.is_dir || config.huge,
    ensures
        ({
            let raw = Rv64Pte::encoding(config, vendor);
            &&& bit_set(raw, 0)
            &&& bit_set(raw, 1) == (config.read || config.writable)
            &&& bit_set(raw, 2) == config.writable
            &&& bit_set(raw, 3) == config.executable
            &&& bit_set(raw, 4) == config.lower
            &&& !bit_set(raw, 5)
            &&& bit_set(raw, 6)
            &&& bit_set(raw, 7)
            &&& (raw >> 10) & 0xfff_ffff_ffff == (config.paddr >> 12) & 0xfff_ffff_ffff
            &&& (raw >> 54) & 0x3f == 0
            &&& raw >> 60 == if vendor == RvVendor::Standard {
                0
            } else if config.mem_attr == MemAttributes::Device {
                9u64
            } else if config.mem_attr == MemAttributes::Uncached {
                3
            } else {
                7
            }
        }),
{
    let memory = rv_memory_bits(config.mem_attr, vendor);
    assert(0u64 & 0x0fff_ffff_ffff_ffff == 0 && (RV_SH | RV_SO) & 0x0fff_ffff_ffff_ffff == 0 && (
    RV_SH | RV_B) & 0x0fff_ffff_ffff_ffff == 0 && (RV_SH | RV_B | RV_C) & 0x0fff_ffff_ffff_ffff
        == 0 && 0u64 >> 60 == 0 && (RV_SH | RV_SO) >> 60 == 9 && (RV_SH | RV_B) >> 60 == 3 && (RV_SH
        | RV_B | RV_C) >> 60 == 7) by (bit_vector);
    rv_layout(
        config.paddr,
        config.read || config.writable,
        config.writable,
        config.executable,
        config.lower,
        memory,
    );
}

proof fn a64_layout(addr: u64, memory: u64, r: bool, ro: bool, execution: u64, nb: bool)
    by (bit_vector)
    requires
        memory & !0x30cu64 == 0,
        execution & !(A64_AP_EL0 | A64_PXN | A64_UXN) == 0,
    ensures
        ({
            let raw = (addr & A64_PHYS_ADDR_MASK) | ((memory | A64_AF | flag(r, A64_VALID) | flag(
                ro,
                A64_AP_RO,
            ) | execution) | flag(nb, A64_NON_BLOCK));
            &&& ((raw >> 0) & 1 == 1) == r
            &&& ((raw >> 1) & 1 == 1) == nb
            &&& (raw >> 2) & 7 == (memory >> 2) & 7
            &&& (raw >> 6) & 1 == (execution >> 6) & 1
            &&& ((raw >> 7) & 1 == 1) == ro
            &&& (raw >> 8) & 3 == (memory >> 8) & 3
            &&& (raw >> 10) & 1 == 1
            &&& (raw >> 11) & 1 == 0
            &&& (raw >> 53) & 1 == (execution >> 53) & 1
            &&& (raw >> 54) & 1 == (execution >> 54) & 1
            &&& raw & 0x0000_ffff_ffff_f000 == addr & 0x0000_ffff_ffff_f000
        }),
{
}

/// An AArch64 descriptor that maps memory. Bits 2 to 4 say how the memory
/// behaves: 0 for devices, 2 for memory without a cache, and 1 for any other;
/// bits 8 and 9 say that it is shared, which is so unless it is a device's. So
/// memory of different behaviour has different descriptors. Bit 0 says that it
/// can be read, bit 1 that it is a page, bit 7 that it cannot be written, bit 10
/// that it was used.
pub proof fn a64_leaf_layout(config: PteConfig, regime: A64Regime)
    requires
        config.valid,
        !config.is_dir || config.huge,
    ensures
        ({
            let raw = A64Pte::encoding(config, regime);
            &&& bit_set(raw, 0) == config.read
            &&& bit_set(raw, 1) == !config.huge
            &&& (raw >> 2) & 7 == if config.mem_attr == MemAttributes::Device {
                0
            } else if config.mem_attr == MemAttributes::Uncached {
                2u64
            } else {
                1
            }
            &&& bit_set(raw, 7) == !config.writable
            &&& (raw >> 8) & 3 == if config.mem_attr == MemAttributes::Device {
                0
            } else {
                3u64
            }
            &&& bit_set(raw, 10)
            &&& !bit_set(raw, 11)
            &&& raw & 0x0000_ffff_ffff_f000 == config.paddr & 0x0000_ffff_ffff_f000
        }),
{
    let memory = a64_memory_bits(config.mem_attr);
    let execution = a64_execution_bits(config.lower, config.executable, regime);
    assert(0u64 & !0x30cu64 == 0 && (A64_ATTR_NON_CACHEABLE | A64_INNER | A64_SHAREABLE)
        & !0x30cu64 == 0 && (A64_ATTR_NORMAL | A64_INNER | A64_SHAREABLE) & !0x30cu64 == 0 && (0u64
        >> 2) & 7 == 0 && (0u64 >> 8) & 3 == 0 && ((A64_ATTR_NON_CACHEABLE | A64_INNER
        | A64_SHAREABLE) >> 2) & 7 == 2 && ((A64_ATTR_NON_CACHEABLE | A64_INNER | A64_SHAREABLE)
        >> 8) & 3 == 3 && ((A64_ATTR_NORMAL | A64_INNER | A64_SHAREABLE) >> 2) & 7 == 1 && ((
    A64_ATTR_NORMAL | A64_INNER | A64_SHAREABLE) >> 8) & 3 == 3) by (bit_vector);
    a64_execution_layout(config, regime);
    a64_layout(config.paddr, memory, config.read, !config.writable, execution, !config.huge);
}

proof fn a64_execution_layout(config: PteConfig, regime: A64Regime)
    ensures
        ({
            let bits = a64_execution_bits(config.lower, config.executable, regime);
            let el1 = regime == A64Regime::El1;
            &&& bits & !(A64_AP_EL0 | A64_PXN | A64_UXN) == 0
            &&& ((bits >> 6) & 1 == 1) == (el1 && config.lower)
            &&& ((bits >> 53) & 1 == 1) == (el1 && (config.lower || !config.executable))
            &&& ((bits >> 54) & 1 == 1) == ((el1 && !config.lower) || !config.executable)
        }),
{
    let low = config.lower;
    let runs = config.executable;
    let el1 = regime == A64Regime::El1;
    assert({
        let bits = if el1 {
            if low {
                A64_AP_EL0 | A64_PXN | flag(!runs, A64_UXN)
            } else {
                A64_UXN | flag(!runs, A64_PXN)
            }
        } else {
            flag(!runs, A64_UXN)
        };
        &&& bits & !(A64_AP_EL0 | A64_PXN | A64_UXN) == 0
        &&& ((bits >> 6) & 1 == 1) == (el1 && low)
        &&& ((bits >> 53) & 1 == 1) == (el1 && (low || !runs))
        &&& ((bits >> 54) & 1 == 1) == ((el1 && !low) || !runs)
    }) by (bit_vector);
}

/// Who may execute memory that an AArch64 descriptor maps: under a kernel, user
/// memory is for user programs alone (bit 6) and kernel memory for the kernel
/// alone (bit 53 forbids the kernel, bit 54 user programs); a hypervisor has
/// bit 54 for itself.
pub proof fn a64_execution_is_separate(config: PteConfig, regime: A64Regime)
    requires
        config.valid,
        !config.is_dir || config.huge,
    ensures
        ({
            let raw = A64Pte::encoding(config, regime);
            &&& regime == A64Regime::El1 ==> bit_set(raw, 6) == config.lower
            &&& regime == A64Regime::El1 && config.lower ==> bit_set(raw, 53) && bit_set(raw, 54)
                == !config.executable
            &&& regime == A64Regime::El1 && !config.lower ==> bit_set(raw, 54) && bit_set(raw, 53)
                == !config.executable
            &&& regime == A64Regime::El2 ==> bit_set(raw, 54) == !config.executable && !bit_set(
                raw,
                53,
            ) && !bit_set(raw, 6)
        }),
{
    let memory = a64_memory_bits(config.mem_attr);
    let execution = a64_execution_bits(config.lower, config.executable, regime);
    assert(0u64 & !0x30cu64 == 0 && (A64_ATTR_NON_CACHEABLE | A64_INNER | A64_SHAREABLE)
        & !0x30cu64 == 0 && (A64_ATTR_NORMAL | A64_INNER | A64_SHAREABLE) & !0x30cu64 == 0)
        by (bit_vector);
    a64_execution_layout(config, regime);
    a64_layout(config.paddr, memory, config.read, !config.writable, execution, !config.huge);
}

proof fn la_layout(addr: u64, nr: bool, w: bool, nx: bool, u: bool, memory: u64, h: bool)
    by (bit_vector)
    requires
        memory == 0 || memory == LA_MATH || memory == LA_MATL,
    ensures
        ({
            let raw = (addr & LA_PHYS_ADDR_MASK) | (LA_P | flag(nr, LA_NR) | flag(w, LA_W | LA_D)
                | flag(nx, LA_NX) | flag(u, LA_PLVL | LA_PLVH) | memory | flag(h, LA_GH));
            &&& ((raw >> 1) & 1 == 1) == w
            &&& (raw >> 2) & 3 == if u {
                3u64
            } else {
                0
            }
            &&& (raw >> 4) & 3 == memory >> 4
            &&& ((raw >> 6) & 1 == 1) == h
            &&& (raw >> 7) & 1 == 1
            &&& ((raw >> 8) & 1 == 1) == w
            &&& ((raw >> 61) & 1 == 1) == nr
            &&& ((raw >> 62) & 1 == 1) == nx
            &&& raw & 0x0000_ffff_ffff_f000 == addr & 0x0000_ffff_ffff_f000
        }),
{
}

/// A LoongArch64 entry that maps memory: bits 1 and 8 say that it can be
/// written, bits 2 and 3 hold the privilege level, bits 4 and 5 say how the
/// memory behaves (0 for devices, 1 for cached memory, 2 for memory without a
/// cache), bit 6 that it is large, bit 7 that it is there, and bits 61 and 62
/// that it cannot be read and not be executed.
pub proof fn la_leaf_layout(config: PteConfig)
    requires
        config.valid,
        !config.is_dir || config.huge,
    ensures
        ({
            let raw = La64Pte::encoding(config);
            &&& bit_set(raw, 1) == config.writable
            &&& (raw >> 2) & 3 == if config.lower {
                3u64
            } else {
                0
            }
            &&& (raw >> 4) & 3 == if config.mem_attr == MemAttributes::Device {
                0
            } else if config.mem_attr == MemAttributes::Uncached {
                2u64
            } else {
                1
            }
            &&& bit_set(raw, 6) == config.huge
            &&& bit_set(raw, 7)
            &&& bit_set(raw, 8) == config.writable
            &&& bit_set(raw, 61) == !config.read
            &&& bit_set(raw, 62) == !config.executable
            &&& raw & 0x0000_ffff_ffff_f000 == config.paddr & 0x0000_ffff_ffff_f000
        }),
{
    assert(LA_MATL >> 4 == 1 && LA_MATH >> 4 == 2 && 0u64 >> 4 == 0) by (bit_vector);
    la_layout(
        config.paddr,
        !config.read,
        config.writable,
        !config.executable,
        config.lower,
        la_memory_bits(config.mem_attr),
        config.huge,
    );
}

/// An entry for a table holds the address of the table. It grants on x86_64
/// whatever the entries below grant, and is marked as a table elsewhere.
pub proof fn table_layout(config: PteConfig, vendor: RvVendor, regime: A64Regime)
    requires
        config.valid,
        config.is_dir,
        !config.huge,
    ensures
        X64Pte::encoding(config) == (config.paddr & 0x000f_ffff_ffff_f000) | 7,
        Rv64Pte::encoding(config, vendor) == ((config.paddr >> 2) & 0x003f_ffff_ffff_fc00) | 1,
        A64Pte::encoding(config, regime) == (config.paddr & 0x0000_ffff_ffff_f000) | 3,
        La64Pte::encoding(config) == config.paddr & 0x0000_ffff_ffff_f000,
{
    assert(1u64 | 2 | 4 == 7 && 2u64 | 1 == 3) by (bit_vector);
}

/// What cannot be used is encoded as zero.
pub proof fn absent_layout(config: PteConfig, vendor: RvVendor, regime: A64Regime)
    requires
        !config.valid,
    ensures
        X64Pte::encoding(config) == 0,
        Rv64Pte::encoding(config, vendor) == 0,
        A64Pte::encoding(config, regime) == 0,
        La64Pte::encoding(config) == 0,
{
}

/// Reading an entry goes by the same bits, whoever set them: what the processor
/// marks as written or as meant for all address spaces is read back.
pub proof fn marks_of_the_processor_are_read(raw: u64, is_dir: bool)
    ensures
        (X64Pte { raw }).decoding(is_dir).dirty == (raw & 0x40 != 0),
        (X64Pte { raw }).decoding(is_dir).global == (raw & 0x100 != 0),
        (X64Pte { raw }).decoding(is_dir).writable == (raw & 0x2 != 0),
        (X64Pte { raw }).decoding(is_dir).lower == (raw & 0x4 != 0),
        (X64Pte { raw }).decoding(is_dir).valid == (raw & 0x1 != 0),
        (X64Pte { raw }).decoding(is_dir).executable ==> raw & 0x8000_0000_0000_0000 == 0,
        (Rv64Pte { raw }).decoding(is_dir).dirty == (raw & 0x80 != 0),
        (Rv64Pte { raw }).decoding(is_dir).global == (raw & 0x20 != 0),
        (Rv64Pte { raw }).decoding(is_dir).read == (raw & 0x2 != 0),
        (Rv64Pte { raw }).decoding(is_dir).writable == (raw & 0x4 != 0),
        (Rv64Pte { raw }).decoding(is_dir).executable == (raw & 0x8 != 0),
        (Rv64Pte { raw }).decoding(is_dir).lower == (raw & 0x10 != 0),
        (A64Pte { raw }).decoding(is_dir, A64Regime::El1).global == (raw & 0x800 == 0),
        (A64Pte { raw }).decoding(is_dir, A64Regime::El1).writable == (raw & 0x80 == 0),
        (A64Pte { raw }).decoding(is_dir, A64Regime::El1).lower == (raw & 0x40 != 0),
        !(A64Pte { raw }).decoding(is_dir, A64Regime::El2).lower,
        (La64Pte { raw }).decoding(is_dir).dirty == (raw & 0x2 != 0),
        (La64Pte { raw }).decoding(is_dir).global == (raw & 0x1000 != 0),
        (La64Pte { raw }).decoding(is_dir).writable == (raw & 0x100 != 0),
{
}

/// The tables of RISC-V translate 39 bits of an address, those of the others 48
/// bits: 12 for the place in a page, and 9 for every level.
pub proof fn tables_cover_the_address_space(meta: ArchPagingMeta)
    ensures
        meta.levels().len() * 9 + 12 == if meta.arch == PagingArch::Rv64 {
            39int
        } else {
            48int
        },
        forall|i: int| 0 <= i < meta.levels().len() ==> #[trigger] meta.levels()[i] == 9,
{
}

} // verus!
