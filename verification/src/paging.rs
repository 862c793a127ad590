//! Page-table entries of four processor architectures.
use vstd::prelude::*;

verus! {

/// How memory behaves.
#[derive(Clone, Copy, Debug, PartialEq, Eq, Structural)]
pub enum MemAttributes {
    Normal,
    PerCpu,
    Device,
    Uncached,
}

/// What an entry says, whatever the architecture. `is_dir` marks an entry above
/// the last level, `huge` one of those that maps memory itself; `lower` opens
/// the memory to user programs.
#[derive(Clone, Copy, Debug, PartialEq, Eq, Structural)]
pub struct PteConfig {
    pub paddr: u64,
    pub valid: bool,
    pub read: bool,
    pub writable: bool,
    pub executable: bool,
    pub lower: bool,
    pub dirty: bool,
    pub global: bool,
    pub is_dir: bool,
    pub huge: bool,
    pub mem_attr: MemAttributes,
}

impl PteConfig {
    /// Whether the entry refers to a table of the next level.
    pub open spec fn is_table(self) -> bool {
        self.is_dir && !self.huge
    }
}

/// The architectures that have page tables here.
#[derive(Clone, Copy, Debug, PartialEq, Eq, Structural)]
pub enum PagingArch {
    X64,
    Rv64,
    A64,
    La64,
}

/// The shape of the page tables of an architecture.
#[derive(Clone, Copy, Debug, PartialEq, Eq, Structural)]
pub struct ArchPagingMeta {
    pub arch: PagingArch,
}

pub const PAGE_SIZE_4K: usize = 4096;

impl ArchPagingMeta {
    /// The number of index bits at each level, the topmost first.
    pub open spec fn levels(self) -> Seq<usize> {
        if self.arch == PagingArch::Rv64 {
            seq![9usize, 9, 9]
        } else {
            seq![9usize, 9, 9, 9]
        }
    }

    pub fn page_size(&self) -> (size: usize)
        ensures
            size == PAGE_SIZE_4K,
    {
        PAGE_SIZE_4K
    }

    pub fn level_bits(&self) -> (bits: Vec<usize>)
        ensures
            bits@ == self.levels(),
    {
        if self.arch == PagingArch::Rv64 {
            vec![9, 9, 9]
        } else {
            vec![9, 9, 9, 9]
        }
    }

    /// The highest level at which an entry maps memory itself.
    pub fn max_block_level(&self) -> (level: usize)
        ensures
            level == 3,
    {
        3
    }

    /// Whether addresses have to fit the levels.
    pub fn strict_address_width(&self) -> (strict: bool)
        ensures
            !strict,
    {
        false
    }
}

/// The bits of a flag that is set under a condition.
pub open spec fn flag(set: bool, bits: u64) -> u64 {
    if set {
        bits
    } else {
        0
    }
}

fn flag_bits(set: bool, bits: u64) -> (value: u64)
    ensures
        value == flag(set, bits),
{
    if set {
        bits
    } else {
        0
    }
}

/// Whether a flag is set in an entry.
pub open spec fn is_set(raw: u64, bits: u64) -> bool {
    raw & bits != 0
}

fn test_bits(raw: u64, bits: u64) -> (set: bool)
    ensures
        set == is_set(raw, bits),
{
    raw & bits != 0
}

/// Whether memory must not be cached.
pub open spec fn uncached(mem_attr: MemAttributes) -> bool {
    mem_attr == MemAttributes::Device || mem_attr == MemAttributes::Uncached
}

pub const X64_PRESENT: u64 = 0x1;

pub const X64_WRITABLE: u64 = 0x2;

pub const X64_USER: u64 = 0x4;

pub const X64_WRITE_THROUGH: u64 = 0x8;

pub const X64_NO_CACHE: u64 = 0x10;

pub const X64_DIRTY: u64 = 0x40;

pub const X64_HUGE_PAGE: u64 = 0x80;

pub const X64_GLOBAL: u64 = 0x100;

pub const X64_NO_EXECUTE: u64 = 0x8000000000000000;

pub const X64_PHYS_ADDR_MASK: u64 = 0xffffffffff000;

/// An entry of an x86_64 page table.
#[derive(Clone, Copy, Debug, PartialEq, Eq, Structural)]
pub struct X64Pte {
    pub raw: u64,
}

impl X64Pte {
    /// The bits of an entry that maps memory.
    pub open spec fn leaf_bits(config: PteConfig) -> u64 {
        X64_PRESENT | flag(config.writable, X64_WRITABLE) | flag(config.lower, X64_USER) | flag(
            uncached(config.mem_attr),
            X64_NO_CACHE | X64_WRITE_THROUGH,
        ) | flag(!config.executable, X64_NO_EXECUTE) | flag(config.huge, X64_HUGE_PAGE)
    }

    /// The entry that says what a configuration says.
    pub open spec fn encoding(config: PteConfig) -> u64 {
        if !config.valid {
            0
        } else if config.is_table() {
            (config.paddr & X64_PHYS_ADDR_MASK) | (X64_PRESENT | X64_WRITABLE | X64_USER)
        } else {
            (config.paddr & X64_PHYS_ADDR_MASK) | Self::leaf_bits(config)
        }
    }

    pub fn from_config(config: PteConfig) -> (entry: Self)
        ensures
            entry.raw == Self::encoding(config),
    {
        if !config.valid {
            return X64Pte { raw: 0 };
        }
        let paddr: u64 = config.paddr & X64_PHYS_ADDR_MASK;
        if config.is_dir && !config.huge {
            return X64Pte { raw: paddr | (X64_PRESENT | X64_WRITABLE | X64_USER) };
        }
        let device = config.mem_attr == MemAttributes::Device || config.mem_attr
            == MemAttributes::Uncached;
        let bits: u64 = X64_PRESENT | flag_bits(config.writable, X64_WRITABLE) | flag_bits(
            config.lower,
            X64_USER,
        ) | flag_bits(device, X64_NO_CACHE | X64_WRITE_THROUGH) | flag_bits(
            !config.executable,
            X64_NO_EXECUTE,
        ) | flag_bits(config.huge, X64_HUGE_PAGE);
        X64Pte { raw: paddr | bits }
    }

    /// What an entry says.
    pub open spec fn decoding(self, is_dir: bool) -> PteConfig {
        let valid = is_set(self.raw, X64_PRESENT);
        let huge = is_set(self.raw, X64_HUGE_PAGE);
        PteConfig {
            paddr: self.raw & X64_PHYS_ADDR_MASK,
            valid,
            read: valid,
            writable: is_set(self.raw, X64_WRITABLE),
            executable: valid && !is_set(self.raw, X64_NO_EXECUTE),
            lower: is_set(self.raw, X64_USER),
            dirty: is_set(self.raw, X64_DIRTY),
            global: is_set(self.raw, X64_GLOBAL),
            is_dir: is_dir && !huge,
            huge: is_dir && huge,
            mem_attr: if is_set(self.raw, X64_NO_CACHE) {
                MemAttributes::Uncached
            } else {
                MemAttributes::Normal
            },
        }
    }

    pub fn to_config(&self, is_dir: bool) -> (config: PteConfig)
        ensures
            config == self.decoding(is_dir),
    {
        let valid = test_bits(self.raw, X64_PRESENT);
        let huge = test_bits(self.raw, X64_HUGE_PAGE);
        PteConfig {
            paddr: self.raw & X64_PHYS_ADDR_MASK,
            valid,
            read: valid,
            writable: test_bits(self.raw, X64_WRITABLE),
            executable: valid && !test_bits(self.raw, X64_NO_EXECUTE),
            lower: test_bits(self.raw, X64_USER),
            dirty: test_bits(self.raw, X64_DIRTY),
            global: test_bits(self.raw, X64_GLOBAL),
            is_dir: is_dir && !huge,
            huge: is_dir && huge,
            mem_attr: if test_bits(self.raw, X64_NO_CACHE) {
                MemAttributes::Uncached
            } else {
                MemAttributes::Normal
            },
        }
    }

    pub fn valid(&self) -> (valid: bool)
        ensures
            valid == self.decoding(false).valid,
    {
        test_bits(self.raw, X64_PRESENT)
    }
}

pub const RV_V: u64 = 0x1;

pub const RV_R: u64 = 0x2;

pub const RV_W: u64 = 0x4;

pub const RV_X: u64 = 0x8;

pub const RV_U: u64 = 0x10;

pub const RV_G: u64 = 0x20;

pub const RV_A: u64 = 0x40;

pub const RV_D: u64 = 0x80;

pub const RV_SH: u64 = 0x1000000000000000;

pub const RV_B: u64 = 0x2000000000000000;

pub const RV_C: u64 = 0x4000000000000000;

pub const RV_SO: u64 = 0x8000000000000000;

pub const RV_PHYS_ADDR_MASK: u64 = 0x3ffffffffffc00;

/// Whose extensions a RISC-V processor has.
#[derive(Clone, Copy, Debug, PartialEq, Eq, Structural)]
pub enum RvVendor {
    Standard,
    XuantieC9xx,
}

/// An entry of a RISC-V page table.
#[derive(Clone, Copy, Debug, PartialEq, Eq, Structural)]
pub struct Rv64Pte {
    pub raw: u64,
}

/// The bits by which a processor is told how memory behaves.
pub open spec fn rv_memory_bits(mem_attr: MemAttributes, vendor: RvVendor) -> u64 {
    if vendor == RvVendor::Standard {
        0
    } else if mem_attr == MemAttributes::Device {
        RV_SH | RV_SO
    } else if mem_attr == MemAttributes::Uncached {
        RV_SH | RV_B
    } else {
        RV_SH | RV_B | RV_C
    }
}

impl Rv64Pte {
    /// The bits of an entry that maps memory.
    pub open spec fn leaf_bits(config: PteConfig, vendor: RvVendor) -> u64 {
        (RV_V | RV_A | RV_D) | flag(config.read || config.writable, RV_R) | flag(
            config.writable,
            RV_W,
        ) | flag(config.executable, RV_X) | flag(config.lower, RV_U) | rv_memory_bits(
            config.mem_attr,
            vendor,
        )
    }

    pub fn leaf_flags(config: PteConfig, vendor: RvVendor) -> (bits: u64)
        ensures
            bits == Self::leaf_bits(config, vendor),
    {
        let memory: u64 = match vendor {
            RvVendor::Standard => 0,
            RvVendor::XuantieC9xx => match config.mem_attr {
                MemAttributes::Device => RV_SH | RV_SO,
                MemAttributes::Uncached => RV_SH | RV_B,
                _ => RV_SH | RV_B | RV_C,
            },
        };
        (RV_V | RV_A | RV_D) | flag_bits(config.read || config.writable, RV_R) | flag_bits(
            config.writable,
            RV_W,
        ) | flag_bits(config.executable, RV_X) | flag_bits(config.lower, RV_U) | memory
    }

    /// The entry that says what a configuration says.
    pub open spec fn encoding(config: PteConfig, vendor: RvVendor) -> u64 {
        if !config.valid {
            0
        } else if config.is_table() {
            ((config.paddr >> 2) & RV_PHYS_ADDR_MASK) | RV_V
        } else {
            ((config.paddr >> 2) & RV_PHYS_ADDR_MASK) | Self::leaf_bits(config, vendor)
        }
    }

    pub fn from_config(config: PteConfig, vendor: RvVendor) -> (entry: Self)
        ensures
            entry.raw == Self::encoding(config, vendor),
    {
        if !config.valid {
            return Rv64Pte { raw: 0 };
        }
        let paddr: u64 = (config.paddr >> 2) & RV_PHYS_ADDR_MASK;
        let bits: u64 = if config.is_dir && !config.huge {
            RV_V
        } else {
            Self::leaf_flags(config, vendor)
        };
        Rv64Pte { raw: paddr | bits }
    }

    /// What an entry says. How memory behaves is not read back.
    pub open spec fn decoding(self, is_dir: bool) -> PteConfig {
        let valid = is_set(self.raw, RV_V);
        let huge = is_dir && (is_set(self.raw, RV_R) || is_set(self.raw, RV_X));
        PteConfig {
            paddr: (self.raw & RV_PHYS_ADDR_MASK) << 2,
            valid,
            read: is_set(self.raw, RV_R),
            writable: is_set(self.raw, RV_W),
            executable: is_set(self.raw, RV_X),
            lower: is_set(self.raw, RV_U),
            dirty: is_set(self.raw, RV_D),
            global: is_set(self.raw, RV_G),
            is_dir: is_dir && valid && !huge,
            huge,
            mem_attr: MemAttributes::Normal,
        }
    }

    pub fn to_config(&self, is_dir: bool) -> (config: PteConfig)
        ensures
            config == self.decoding(is_dir),
    {
        let valid = test_bits(self.raw, RV_V);
        let huge = is_dir && (test_bits(self.raw, RV_R) || test_bits(self.raw, RV_X));
        PteConfig {
            paddr: (self.raw & RV_PHYS_ADDR_MASK) << 2,
            valid,
            read: test_bits(self.raw, RV_R),
            writable: test_bits(self.raw, RV_W),
            executable: test_bits(self.raw, RV_X),
            lower: test_bits(self.raw, RV_U),
            dirty: test_bits(self.raw, RV_D),
            global: test_bits(self.raw, RV_G),
            is_dir: is_dir && valid && !huge,
            huge,
            mem_attr: MemAttributes::Normal,
        }
    }

    pub fn valid(&self) -> (valid: bool)
        ensures
            valid == self.decoding(false).valid,
    {
        test_bits(self.raw, RV_V)
    }
}

pub const A64_VALID: u64 = 0x1;

pub const A64_NON_BLOCK: u64 = 0x2;

pub const A64_AP_EL0: u64 = 0x40;

pub const A64_AP_RO: u64 = 0x80;

pub const A64_INNER: u64 = 0x100;

pub const A64_SHAREABLE: u64 = 0x200;

pub const A64_AF: u64 = 0x400;

pub const A64_NG: u64 = 0x800;

pub const A64_PXN: u64 = 0x20000000000000;

pub const A64_UXN: u64 = 0x40000000000000;

pub const A64_ATTR_NORMAL: u64 = 0x4;

pub const A64_ATTR_NON_CACHEABLE: u64 = 0x8;

pub const A64_PHYS_ADDR_MASK: u64 = 0xfffffffff000;

/// At which level of privilege an AArch64 kernel runs.
#[derive(Clone, Copy, Debug, PartialEq, Eq, Structural)]
pub enum A64Regime {
    El1,
    El2,
}

/// A descriptor of an AArch64 translation table.
#[derive(Clone, Copy, Debug, PartialEq, Eq, Structural)]
pub struct A64Pte {
    pub raw: u64,
}

/// The bits by which a processor is told how memory behaves. All but device
/// memory is shared with the inner domain.
pub open spec fn a64_memory_bits(mem_attr: MemAttributes) -> u64 {
    match mem_attr {
        MemAttributes::Device => 0,
        MemAttributes::Uncached => A64_ATTR_NON_CACHEABLE | A64_INNER | A64_SHAREABLE,
        _ => A64_ATTR_NORMAL | A64_INNER | A64_SHAREABLE,
    }
}

/// The bits that say who may run code from memory.
pub open spec fn a64_execution_bits(lower: bool, executable: bool, regime: A64Regime) -> u64 {
    match regime {
        A64Regime::El1 => if lower {
            A64_AP_EL0 | A64_PXN | flag(!executable, A64_UXN)
        } else {
            A64_UXN | flag(!executable, A64_PXN)
        },
        A64Regime::El2 => flag(!executable, A64_UXN),
    }
}

impl A64Pte {
    /// The bits of a descriptor that maps memory, apart from its kind.
    pub open spec fn leaf_bits(config: PteConfig, regime: A64Regime) -> u64 {
        a64_memory_bits(config.mem_attr) | A64_AF | flag(config.read, A64_VALID) | flag(
            !config.writable,
            A64_AP_RO,
        ) | a64_execution_bits(config.lower, config.executable, regime)
    }

    pub fn leaf_attr(config: PteConfig, regime: A64Regime) -> (bits: u64)
        ensures
            bits == Self::leaf_bits(config, regime),
    {
        let memory: u64 = match config.mem_attr {
            MemAttributes::Device => 0,
            MemAttributes::Uncached => A64_ATTR_NON_CACHEABLE | A64_INNER | A64_SHAREABLE,
            _ => A64_ATTR_NORMAL | A64_INNER | A64_SHAREABLE,
        };
        let execution: u64 = match regime {
            A64Regime::El1 => if config.lower {
                A64_AP_EL0 | A64_PXN | flag_bits(!config.executable, A64_UXN)
            } else {
                A64_UXN | flag_bits(!config.executable, A64_PXN)
            },
            A64Regime::El2 => flag_bits(!config.executable, A64_UXN),
        };
        memory | A64_AF | flag_bits(config.read, A64_VALID) | flag_bits(
            !config.writable,
            A64_AP_RO,
        ) | execution
    }

    /// The descriptor that says what a configuration says.
    pub open spec fn encoding(config: PteConfig, regime: A64Regime) -> u64 {
        if !config.valid {
            0
        } else if config.is_table() {
            (config.paddr & A64_PHYS_ADDR_MASK) | (A64_NON_BLOCK | A64_VALID)
        } else {
            (config.paddr & A64_PHYS_ADDR_MASK) | (Self::leaf_bits(config, regime) | flag(
                !config.huge,
                A64_NON_BLOCK,
            ))
        }
    }

    pub fn from_config(config: PteConfig, regime: A64Regime) -> (entry: Self)
        ensures
            entry.raw == Self::encoding(config, regime),
    {
        if !config.valid {
            return A64Pte { raw: 0 };
        }
        let paddr: u64 = config.paddr & A64_PHYS_ADDR_MASK;
        if config.is_dir && !config.huge {
            return A64Pte { raw: paddr | (A64_NON_BLOCK | A64_VALID) };
        }
        let bits: u64 = Self::leaf_attr(config, regime) | flag_bits(!config.huge, A64_NON_BLOCK);
        A64Pte { raw: paddr | bits }
    }

    /// What a descriptor says. How memory behaves is not read back: it counts
    /// as a device.
    pub open spec fn decoding(self, is_dir: bool, regime: A64Regime) -> PteConfig {
        let valid = is_set(self.raw, A64_VALID);
        let huge = is_dir && !is_set(self.raw, A64_NON_BLOCK);
        let lower = regime == A64Regime::El1 && is_set(self.raw, A64_AP_EL0);
        PteConfig {
            paddr: self.raw & A64_PHYS_ADDR_MASK,
            valid,
            read: valid,
            writable: !is_set(self.raw, A64_AP_RO),
            executable: if regime == A64Regime::El2 || lower {
                !is_set(self.raw, A64_UXN)
            } else {
                !is_set(self.raw, A64_PXN)
            },
            lower,
            dirty: true,
            global: !is_set(self.raw, A64_NG),
            is_dir: is_dir && valid && !huge,
            huge,
            mem_attr: MemAttributes::Device,
        }
    }

    pub fn to_config(&self, is_dir: bool, regime: A64Regime) -> (config: PteConfig)
        ensures
            config == self.decoding(is_dir, regime),
    {
        let valid = test_bits(self.raw, A64_VALID);
        let huge = is_dir && !test_bits(self.raw, A64_NON_BLOCK);
        let lower = regime == A64Regime::El1 && test_bits(self.raw, A64_AP_EL0);
        PteConfig {
            paddr: self.raw & A64_PHYS_ADDR_MASK,
            valid,
            read: valid,
            writable: !test_bits(self.raw, A64_AP_RO),
            executable: if regime == A64Regime::El2 || lower {
                !test_bits(self.raw, A64_UXN)
            } else {
                !test_bits(self.raw, A64_PXN)
            },
            lower,
            dirty: true,
            global: !test_bits(self.raw, A64_NG),
            is_dir: is_dir && valid && !huge,
            huge,
            mem_attr: MemAttributes::Device,
        }
    }

    pub fn valid(&self) -> (valid: bool)
        ensures
            valid == self.decoding(false, A64Regime::El1).valid,
    {
        test_bits(self.raw, A64_VALID)
    }
}

pub const LA_D: u64 = 0x2;

pub const LA_PLVL: u64 = 0x4;

pub const LA_PLVH: u64 = 0x8;

pub const LA_MATL: u64 = 0x10;

pub const LA_MATH: u64 = 0x20;

pub const LA_GH: u64 = 0x40;

pub const LA_P: u64 = 0x80;

pub const LA_W: u64 = 0x100;

pub const LA_G: u64 = 0x1000;

pub const LA_NR: u64 = 0x2000000000000000;

pub const LA_NX: u64 = 0x4000000000000000;

pub const LA_PHYS_ADDR_MASK: u64 = 0xfffffffff000;

/// An entry of a LoongArch64 page table.
#[derive(Clone, Copy, Debug, PartialEq, Eq, Structural)]
pub struct La64Pte {
    pub raw: u64,
}

/// The bits by which a processor is told how memory behaves.
pub open spec fn la_memory_bits(mem_attr: MemAttributes) -> u64 {
    match mem_attr {
        MemAttributes::Device => 0,
        MemAttributes::Uncached => LA_MATH,
        _ => LA_MATL,
    }
}

impl La64Pte {
    /// The bits of an entry that maps memory.
    pub open spec fn leaf_bits(config: PteConfig) -> u64 {
        LA_P | flag(!config.read, LA_NR) | flag(config.writable, LA_W | LA_D) | flag(
            !config.executable,
            LA_NX,
        ) | flag(config.lower, LA_PLVL | LA_PLVH) | la_memory_bits(config.mem_attr) | flag(
            config.huge,
            LA_GH,
        )
    }

    pub fn leaf_flags(config: PteConfig) -> (bits: u64)
        ensures
            bits == Self::leaf_bits(config),
    {
        let memory: u64 = match config.mem_attr {
            MemAttributes::Device => 0,
            MemAttributes::Uncached => LA_MATH,
            _ => LA_MATL,
        };
        LA_P | flag_bits(!config.read, LA_NR) | flag_bits(config.writable, LA_W | LA_D)
            | flag_bits(!config.executable, LA_NX) | flag_bits(config.lower, LA_PLVL | LA_PLVH)
            | memory | flag_bits(config.huge, LA_GH)
    }

    /// The entry that says what a configuration says. A table is known by its
    /// address alone.
    pub open spec fn encoding(config: PteConfig) -> u64 {
        if !config.valid {
            0
        } else if config.is_table() {
            config.paddr & LA_PHYS_ADDR_MASK
        } else {
            (config.paddr & LA_PHYS_ADDR_MASK) | Self::leaf_bits(config)
        }
    }

    pub fn from_config(config: PteConfig) -> (entry: Self)
        ensures
            entry.raw == Self::encoding(config),
    {
        if !config.valid {
            return La64Pte { raw: 0 };
        }
        let paddr: u64 = config.paddr & LA_PHYS_ADDR_MASK;
        if config.is_dir && !config.huge {
            return La64Pte { raw: paddr };
        }
        La64Pte { raw: paddr | Self::leaf_flags(config) }
    }

    /// What an entry says.
    pub open spec fn decoding(self, is_dir: bool) -> PteConfig {
        let present = is_set(self.raw, LA_P);
        let table = is_dir && !present && is_set(self.raw, LA_PHYS_ADDR_MASK);
        let valid = present || table;
        PteConfig {
            paddr: self.raw & LA_PHYS_ADDR_MASK,
            valid,
            read: valid && !is_set(self.raw, LA_NR),
            writable: is_set(self.raw, LA_W),
            executable: valid && !is_set(self.raw, LA_NX),
            lower: is_set(self.raw, LA_PLVL) && is_set(self.raw, LA_PLVH),
            dirty: is_set(self.raw, LA_D),
            global: is_set(self.raw, LA_G),
            is_dir: table,
            huge: is_dir && is_set(self.raw, LA_GH),
            mem_attr: if is_set(self.raw, LA_MATL) {
                MemAttributes::Normal
            } else if is_set(self.raw, LA_MATH) {
                MemAttributes::Uncached
            } else {
                MemAttributes::Device
            },
        }
    }

    pub fn to_config(&self, is_dir: bool) -> (config: PteConfig)
        ensures
            config == self.decoding(is_dir),
    {
        let present = test_bits(self.raw, LA_P);
        let table = is_dir && !present && test_bits(self.raw, LA_PHYS_ADDR_MASK);
        let valid = present || table;
        PteConfig {
            paddr: self.raw & LA_PHYS_ADDR_MASK,
            valid,
            read: valid && !test_bits(self.raw, LA_NR),
            writable: test_bits(self.raw, LA_W),
            executable: valid && !test_bits(self.raw, LA_NX),
            lower: test_bits(self.raw, LA_PLVL) && test_bits(self.raw, LA_PLVH),
            dirty: test_bits(self.raw, LA_D),
            global: test_bits(self.raw, LA_G),
            is_dir: table,
            huge: is_dir && test_bits(self.raw, LA_GH),
            mem_attr: if test_bits(self.raw, LA_MATL) {
                MemAttributes::Normal
            } else if test_bits(self.raw, LA_MATH) {
                MemAttributes::Uncached
            } else {
                MemAttributes::Device
            },
        }
    }

    /// Whether the entry maps memory or refers to a table.
    pub fn valid(&self) -> (valid: bool)
        ensures
            valid == (is_set(self.raw, LA_P) || is_set(self.raw, LA_PHYS_ADDR_MASK)),
    {
        test_bits(self.raw, LA_P) || test_bits(self.raw, LA_PHYS_ADDR_MASK)
    }
}

/// An entry that is not valid reads back as one, on every architecture.
pub proof fn invalid_reads_back(config: PteConfig, vendor: RvVendor, regime: A64Regime, is_dir: bool)
    requires
        !config.valid,
    ensures
        !(X64Pte { raw: X64Pte::encoding(config) }).decoding(is_dir).valid,
        !(Rv64Pte { raw: Rv64Pte::encoding(config, vendor) }).decoding(is_dir).valid,
        !(A64Pte { raw: A64Pte::encoding(config, regime) }).decoding(is_dir, regime).valid,
        !(La64Pte { raw: La64Pte::encoding(config) }).decoding(is_dir).valid,
{
    assert(0u64 & 0x1 == 0 && 0u64 & 0x80 == 0 && 0u64 & 0x0000_ffff_ffff_f000 == 0)
        by (bit_vector);
}

proof fn x64_bits(addr: u64, w: bool, u: bool, nc: bool, nx: bool, h: bool)
    by (bit_vector)
    ensures
        ({
            let raw = (addr & X64_PHYS_ADDR_MASK) | (X64_PRESENT | flag(w, X64_WRITABLE) | flag(
                u,
                X64_USER,
            ) | flag(nc, X64_NO_CACHE | X64_WRITE_THROUGH) | flag(nx, X64_NO_EXECUTE) | flag(
                h,
                X64_HUGE_PAGE,
            ));
            &&& raw & X64_PHYS_ADDR_MASK == addr & X64_PHYS_ADDR_MASK
            &&& raw & X64_PRESENT != 0
            &&& (raw & X64_WRITABLE != 0) == w
            &&& (raw & X64_USER != 0) == u
            &&& (raw & X64_NO_CACHE != 0) == nc
            &&& (raw & X64_NO_EXECUTE != 0) == nx
            &&& (raw & X64_HUGE_PAGE != 0) == h
            &&& raw & X64_DIRTY == 0
            &&& raw & X64_GLOBAL == 0
        }),
{
}

/// An x86_64 entry that maps memory reads back as it was written. Addresses are
/// those of pages; device memory reads back as memory without a cache; marks
/// that only the processor sets are clear.
pub proof fn x64_leaf_reads_back(config: PteConfig)
    requires
        config.valid,
        !config.is_table(),
    ensures
        (X64Pte { raw: X64Pte::encoding(config) }).decoding(config.huge) == (PteConfig {
            paddr: config.paddr & X64_PHYS_ADDR_MASK,
            read: true,
            dirty: false,
            global: false,
            is_dir: false,
            mem_attr: if uncached(config.mem_attr) {
                MemAttributes::Uncached
            } else {
                MemAttributes::Normal
            },
            ..config
        }),
{
    x64_bits(
        config.paddr,
        config.writable,
        config.lower,
        uncached(config.mem_attr),
        !config.executable,
        config.huge,
    );
}

/// An x86_64 entry for a table reads back as one, with the table's address.
pub proof fn x64_table_reads_back(config: PteConfig)
    requires
        config.valid,
        config.is_table(),
    ensures
        ({
            let read = (X64Pte { raw: X64Pte::encoding(config) }).decoding(true);
            read.valid && read.is_table() && read.paddr == config.paddr & X64_PHYS_ADDR_MASK
        }),
{
    let addr = config.paddr;
    assert({
        let raw = (addr & 0x000f_ffff_ffff_f000) | (1u64 | 2 | 4);
        raw & 1 != 0 && raw & 128 == 0 && raw & 0x000f_ffff_ffff_f000 == addr
            & 0x000f_ffff_ffff_f000
    }) by (bit_vector);
}

proof fn rv_bits(addr: u64, r: bool, w: bool, x: bool, u: bool, memory: u64)
    by (bit_vector)
    requires
        memory & 0x0fff_ffff_ffff_ffff == 0,
    ensures
        ({
            let raw = ((addr >> 2) & RV_PHYS_ADDR_MASK) | ((RV_V | RV_A | RV_D) | flag(r, RV_R)
                | flag(w, RV_W) | flag(x, RV_X) | flag(u, RV_U) | memory);
            &&& (raw & RV_PHYS_ADDR_MASK) << 2 == addr & 0x00ff_ffff_ffff_f000
            &&& raw & RV_V != 0
            &&& (raw & RV_R != 0) == r
            &&& (raw & RV_W != 0) == w
            &&& (raw & RV_X != 0) == x
            &&& (raw & RV_U != 0) == u
            &&& raw & RV_D != 0
            &&& raw & RV_G == 0
        }),
{
}

/// A RISC-V entry that maps memory reads back as it was written. Addresses are
/// those of pages; memory that can be written can be read; how memory behaves
/// is not read back.
pub proof fn rv_leaf_reads_back(config: PteConfig, vendor: RvVendor)
    requires
        config.valid,
        !config.is_table(),
        config.huge ==> config.read || config.writable || config.executable,
    ensures
        (Rv64Pte { raw: Rv64Pte::encoding(config, vendor) }).decoding(config.huge) == (PteConfig {
            paddr: config.paddr & 0x00ff_ffff_ffff_f000,
            read: config.read || config.writable,
            dirty: true,
            global: false,
            is_dir: false,
            mem_attr: MemAttributes::Normal,
            ..config
        }),
{
    let memory = rv_memory_bits(config.mem_attr, vendor);
    assert(0u64 & 0x0fff_ffff_ffff_ffff == 0 && (RV_SH | RV_SO) & 0x0fff_ffff_ffff_ffff == 0 && (
    RV_SH | RV_B) & 0x0fff_ffff_ffff_ffff == 0 && (RV_SH | RV_B | RV_C) & 0x0fff_ffff_ffff_ffff
        == 0) by (bit_vector);
    rv_bits(
        config.paddr,
        config.read || config.writable,
        config.writable,
        config.executable,
        config.lower,
        memory,
    );
}

/// A RISC-V entry for a table reads back as one, with the table's address.
pub proof fn rv_table_reads_back(config: PteConfig, vendor: RvVendor)
    requires
        config.valid,
        config.is_table(),
    ensures
        ({
            let read = (Rv64Pte { raw: Rv64Pte::encoding(config, vendor) }).decoding(true);
            read.valid && read.is_table() && read.paddr == config.paddr & 0x00ff_ffff_ffff_f000
        }),
{
    let addr = config.paddr;
    assert({
        let raw = ((addr >> 2) & 0x003f_ffff_ffff_fc00) | 1u64;
        raw & 1 != 0 && raw & 2 == 0 && raw & 8 == 0 && (raw & 0x003f_ffff_ffff_fc00) << 2 == addr
            & 0x00ff_ffff_ffff_f000
    }) by (bit_vector);
}

proof fn a64_bits(addr: u64, memory: u64, r: bool, ro: bool, execution: u64, nb: bool)
    by (bit_vector)
    requires
        memory & !0x30cu64 == 0,
        execution & !(A64_AP_EL0 | A64_PXN | A64_UXN) == 0,
    ensures
        ({
            let raw = (addr & A64_PHYS_ADDR_MASK) | ((memory | A64_AF | flag(r, A64_VALID) | flag(
                ro,
                A64_AP_RO,
            ) | execution) | flag(nb, A64_NON_BLOCK));
            &&& raw & A64_PHYS_ADDR_MASK == addr & A64_PHYS_ADDR_MASK
            &&& (raw & A64_VALID != 0) == r
            &&& (raw & A64_AP_RO != 0) == ro
            &&& (raw & A64_NON_BLOCK != 0) == nb
            &&& raw & A64_AP_EL0 == execution & A64_AP_EL0
            &&& raw & A64_PXN == execution & A64_PXN
            &&& raw & A64_UXN == execution & A64_UXN
            &&& raw & A64_NG == 0
        }),
{
}

/// An AArch64 descriptor that maps memory reads back as it was written.
/// Addresses are those of pages; memory that cannot be read is not valid; a
/// hypervisor has no user programs; how memory behaves is not read back.
pub proof fn a64_leaf_reads_back(config: PteConfig, regime: A64Regime)
    requires
        config.valid,
        !config.is_table(),
    ensures
        (A64Pte { raw: A64Pte::encoding(config, regime) }).decoding(config.huge, regime) == (
        PteConfig {
            paddr: config.paddr & A64_PHYS_ADDR_MASK,
            valid: config.read,
            lower: config.lower && regime == A64Regime::El1,
            dirty: true,
            global: true,
            is_dir: false,
            mem_attr: MemAttributes::Device,
            ..config
        }),
{
    let memory = a64_memory_bits(config.mem_attr);
    let execution = a64_execution_bits(config.lower, config.executable, regime);
    assert(0u64 & !0x30cu64 == 0 && (A64_ATTR_NON_CACHEABLE | A64_INNER | A64_SHAREABLE)
        & !0x30cu64 == 0 && (A64_ATTR_NORMAL | A64_INNER | A64_SHAREABLE) & !0x30cu64 == 0)
        by (bit_vector);
    let low = config.lower;
    let exec_bits = config.executable;
    let el1 = regime == A64Regime::El1;
    assert({
        let bits = if el1 {
            if low {
                A64_AP_EL0 | A64_PXN | flag(!exec_bits, A64_UXN)
            } else {
                A64_UXN | flag(!exec_bits, A64_PXN)
            }
        } else {
            flag(!exec_bits, A64_UXN)
        };
        &&& bits & !(A64_AP_EL0 | A64_PXN | A64_UXN) == 0
        &&& (bits & A64_AP_EL0 != 0) == (el1 && low)
        &&& (bits & A64_UXN != 0) == (if el1 && !low {
            true
        } else {
            !exec_bits
        })
        &&& (el1 && !low) ==> (bits & A64_PXN != 0) == !exec_bits
    }) by (bit_vector);
    a64_bits(config.paddr, memory, config.read, !config.writable, execution, !config.huge);
}

/// An AArch64 descriptor of a table reads back as one, with the table's
/// address.
pub proof fn a64_table_reads_back(config: PteConfig, regime: A64Regime)
    requires
        config.valid,
        config.is_table(),
    ensures
        ({
            let read = (A64Pte { raw: A64Pte::encoding(config, regime) }).decoding(true, regime);
            read.valid && read.is_table() && read.paddr == config.paddr & A64_PHYS_ADDR_MASK
        }),
{
    let addr = config.paddr;
    assert({
        let raw = (addr & 0x0000_ffff_ffff_f000) | (2u64 | 1);
        raw & 1 != 0 && raw & 2 != 0 && raw & 0x0000_ffff_ffff_f000 == addr & 0x0000_ffff_ffff_f000
    }) by (bit_vector);
}

proof fn la_bits(addr: u64, nr: bool, w: bool, nx: bool, u: bool, memory: u64, h: bool)
    by (bit_vector)
    requires
        memory == 0 || memory == LA_MATH || memory == LA_MATL,
    ensures
        ({
            let raw = (addr & LA_PHYS_ADDR_MASK) | (LA_P | flag(nr, LA_NR) | flag(w, LA_W | LA_D)
                | flag(nx, LA_NX) | flag(u, LA_PLVL | LA_PLVH) | memory | flag(h, LA_GH));
            &&& raw & LA_PHYS_ADDR_MASK == addr & LA_PHYS_ADDR_MASK
            &&& raw & LA_P != 0
            &&& (raw & LA_NR != 0) == nr
            &&& (raw & LA_W != 0) == w
            &&& (raw & LA_D != 0) == w
            &&& (raw & LA_NX != 0) == nx
            &&& (raw & LA_PLVL != 0) == u
            &&& (raw & LA_PLVH != 0) == u
            &&& (raw & LA_MATL != 0) == (memory == LA_MATL)
            &&& (raw & LA_MATH != 0) == (memory == LA_MATH)
            &&& (raw & LA_GH != 0) == h
            &&& (raw & LA_G != 0) == (addr & LA_G != 0)
        }),
{
}

/// A LoongArch64 entry that maps memory reads back as it was written. Addresses
/// are those of pages; the mark for all address spaces shares its place with
/// the lowest bit of the address; memory of a CPU of its own is ordinary
/// memory; memory that can be written counts as written.
pub proof fn la_leaf_reads_back(config: PteConfig)
    requires
        config.valid,
        !config.is_table(),
    ensures
        (La64Pte { raw: La64Pte::encoding(config) }).decoding(config.huge) == (PteConfig {
            paddr: config.paddr & LA_PHYS_ADDR_MASK,
            dirty: config.writable,
            global: is_set(config.paddr, LA_G),
            is_dir: false,
            mem_attr: if config.mem_attr == MemAttributes::PerCpu {
                MemAttributes::Normal
            } else {
                config.mem_attr
            },
            ..config
        }),
{
    assert(0u64 != LA_MATL && 0u64 != LA_MATH && LA_MATL != LA_MATH);
    la_bits(
        config.paddr,
        !config.read,
        config.writable,
        !config.executable,
        config.lower,
        la_memory_bits(config.mem_attr),
        config.huge,
    );
}

/// A LoongArch64 entry for a table reads back as one, unless the table lies at
/// the bottom of memory.
pub proof fn la_table_reads_back(config: PteConfig)
    requires
        config.valid,
        config.is_table(),
        is_set(config.paddr, LA_PHYS_ADDR_MASK),
    ensures
        ({
            let read = (La64Pte { raw: La64Pte::encoding(config) }).decoding(true);
            read.valid && read.is_table() && read.paddr == config.paddr & LA_PHYS_ADDR_MASK
        }),
{
    let addr = config.paddr;
    assert({
        let raw = addr & 0x0000_ffff_ffff_f000;
        raw & 128 == 0 && raw & 64 == 0 && raw & 0x0000_ffff_ffff_f000 == raw
    }) by (bit_vector);
}

} // verus!
