//! Bus addresses of BCM2711 peripherals: the VideoCore-to-ARM address map
//! and the layout of the DMA controller's register blocks.
use vstd::prelude::*;

verus! {

/// VideoCore physical address
#[derive(Debug, Clone, Copy, PartialEq, Eq, Structural, Hash)]
pub struct Vpa(pub u64);

/// The first VideoCore address of the low-peripheral window.
pub const LOW_PERIPHERAL_VPA_START: u64 = 0x4_7c00_0000;

/// The last VideoCore address of the low-peripheral window.
pub const LOW_PERIPHERAL_VPA_END: u64 = 0x4_7fff_ffff;

/// The ARM physical address of the low-peripheral window.
pub const LOW_PERIPHERAL_ARM_START: u64 = 0xfc00_0000;

/// The ARM physical address of VideoCore address `vpa`, if it lies in the
/// low-peripheral window.
pub open spec fn arm_pa_of(vpa: u64) -> Option<u64> {
    if LOW_PERIPHERAL_VPA_START <= vpa <= LOW_PERIPHERAL_VPA_END {
        Some((vpa - LOW_PERIPHERAL_VPA_START + LOW_PERIPHERAL_ARM_START) as u64)
    } else {
        None
    }
}

impl Vpa {
    /// Map a given VC address to a low-peripheral ARM physical address.
    pub fn to_arm_pa(self) -> (r: Option<u64>)
        ensures
            r == arm_pa_of(self.0),
    {
        if LOW_PERIPHERAL_VPA_START <= self.0 && self.0 <= LOW_PERIPHERAL_VPA_END {
            Some(self.0 - LOW_PERIPHERAL_VPA_START + LOW_PERIPHERAL_ARM_START)
        } else {
            None
        }
    }
}

/// The bus address of the DMA0-14 register block.
pub const BASE_DMA0: u64 = 0x4_7e00_7000;

/// The number of DMA engines in this SoC.
pub const COUNT: usize = 16;

/// The size of the register block of one DMA engine.
pub const DMA_BLOCK_SIZE: u64 = 0x100;

/// The size of the DMA0-14 register block.
pub const DMA0_BLOCK_SIZE: u64 = 0xff4;

/// The register block of a DMA engine (DMA0-6), by its bus address.
#[derive(Debug, Clone, Copy, PartialEq, Eq, Structural, Hash)]
pub struct DmaRegisters(pub Vpa);

/// The register block of a DMA Lite engine (DMA7-10), by its bus address.
#[derive(Debug, Clone, Copy, PartialEq, Eq, Structural, Hash)]
pub struct DmaLiteRegisters(pub Vpa);

/// The register block of a DMA4 engine (DMA11-14), by its bus address.
#[derive(Debug, Clone, Copy, PartialEq, Eq, Structural, Hash)]
pub struct Dma4Registers(pub Vpa);

/// The DMA0-14 register block, by its bus address. It holds the blocks of
/// DMA0-6 from offset 0x000, of DMA7-10 from 0x700 and of DMA11-14 from
/// 0xb00, one every 0x100 bytes.
pub struct Dma0Registers {
    base: Vpa,
}

impl View for Dma0Registers {
    type V = u64;

    closed spec fn view(&self) -> u64 {
        self.base.0
    }
}

/// The bus address of DMA engine `n`'s register block, in the block at
/// `base`.
pub open spec fn dma_block_addr(base: u64, n: int) -> u64 {
    (base + DMA_BLOCK_SIZE * n) as u64
}

impl Dma0Registers {
    #[verifier::type_invariant]
    spec fn fits(self) -> bool {
        self.base.0 + DMA0_BLOCK_SIZE <= u64::MAX
    }

    /// The register block at bus address `base`.
    pub fn at(base: Vpa) -> (r: Self)
        requires
            base.0 + DMA0_BLOCK_SIZE <= u64::MAX,
        ensures
            r@ == base.0,
    {
        Dma0Registers { base }
    }

    /// The register block at its address on this SoC.
    pub fn new() -> (r: Self)
        ensures
            r@ == BASE_DMA0,
    {
        Dma0Registers { base: Vpa(BASE_DMA0) }
    }

    /// The block's bus address.
    pub fn base(&self) -> (r: Vpa)
        ensures
            r.0 == self@,
    {
        self.base
    }

    /// DMA0
    pub fn dma0(&self) -> (r: DmaRegisters)
        ensures
            r.0.0 == dma_block_addr(self@, 0),
    {
        DmaRegisters(self.engine(0))
    }

    /// DMA1
    pub fn dma1(&self) -> (r: DmaRegisters)
        ensures
            r.0.0 == dma_block_addr(self@, 1),
    {
        DmaRegisters(self.engine(1))
    }

    /// DMA2
    pub fn dma2(&self) -> (r: DmaRegisters)
        ensures
            r.0.0 == dma_block_addr(self@, 2),
    {
        DmaRegisters(self.engine(2))
    }

    /// DMA3
    pub fn dma3(&self) -> (r: DmaRegisters)
        ensures
            r.0.0 == dma_block_addr(self@, 3),
    {
        DmaRegisters(self.engine(3))
    }

    /// DMA4
    pub fn dma4(&self) -> (r: DmaRegisters)
        ensures
            r.0.0 == dma_block_addr(self@, 4),
    {
        DmaRegisters(self.engine(4))
    }

    /// DMA5
    pub fn dma5(&self) -> (r: DmaRegisters)
        ensures
            r.0.0 == dma_block_addr(self@, 5),
    {
        DmaRegisters(self.engine(5))
    }

    /// DMA6
    pub fn dma6(&self) -> (r: DmaRegisters)
        ensures
            r.0.0 == dma_block_addr(self@, 6),
    {
        DmaRegisters(self.engine(6))
    }

    /// DMA7
    pub fn dma7(&self) -> (r: DmaLiteRegisters)
        ensures
            r.0.0 == dma_block_addr(self@, 7),
    {
        DmaLiteRegisters(self.engine(7))
    }

    /// DMA8
    pub fn dma8(&self) -> (r: DmaLiteRegisters)
        ensures
            r.0.0 == dma_block_addr(self@, 8),
    {
        DmaLiteRegisters(self.engine(8))
    }

    /// DMA9
    pub fn dma9(&self) -> (r: DmaLiteRegisters)
        ensures
            r.0.0 == dma_block_addr(self@, 9),
    {
        DmaLiteRegisters(self.engine(9))
    }

    /// DMA10
    pub fn dma10(&self) -> (r: DmaLiteRegisters)
        ensures
            r.0.0 == dma_block_addr(self@, 10),
    {
        DmaLiteRegisters(self.engine(10))
    }

    /// DMA11
    pub fn dma11(&self) -> (r: Dma4Registers)
        ensures
            r.0.0 == dma_block_addr(self@, 11),
    {
        Dma4Registers(self.engine(11))
    }

    /// DMA12
    pub fn dma12(&self) -> (r: Dma4Registers)
        ensures
            r.0.0 == dma_block_addr(self@, 12),
    {
        Dma4Registers(self.engine(12))
    }

    /// DMA13
    pub fn dma13(&self) -> (r: Dma4Registers)
        ensures
            r.0.0 == dma_block_addr(self@, 13),
    {
        Dma4Registers(self.engine(13))
    }

    /// DMA14
    pub fn dma14(&self) -> (r: Dma4Registers)
        ensures
            r.0.0 == dma_block_addr(self@, 14),
    {
        Dma4Registers(self.engine(14))
    }

    /// The bus address of DMA engine `n`'s block, `n` below 15.
    fn engine(&self, n: u64) -> (r: Vpa)
        requires
            n < 15,
        ensures
            r.0 == dma_block_addr(self@, n as int),
    {
        proof {
            use_type_invariant(self);
        }
        Vpa(self.base.0 + DMA_BLOCK_SIZE * n)
    }
}

} // verus!
