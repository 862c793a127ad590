//! Buffers that a device and the CPU share.
use vstd::prelude::*;

verus! {

/// Where a buffer comes from.
#[derive(Clone, Copy, Debug, PartialEq, Eq, Structural)]
pub enum IonHeapType {
    System,
    DmaCoherent,
    Carveout,
}

#[derive(Clone, Copy, Debug, PartialEq, Eq, Structural)]
pub enum IonError {
    InvalidArg,
    NoMemory,
    NotSupported,
}

/// Why memory for a device could not be had.
#[derive(Clone, Copy, Debug, PartialEq, Eq, Structural)]
pub enum DmaFailure {
    /// Size and alignment make no layout.
    Layout,
    Other,
}

/// Memory that a device can reach.
#[derive(Clone, Copy, Debug, PartialEq, Eq, Structural)]
pub struct DmaRegion {
    pub address: u64,
    pub len: usize,
}

/// A buffer.
#[derive(Clone, Copy, Debug, PartialEq, Eq, Structural)]
pub struct IonBuffer {
    pub region: DmaRegion,
    pub size: usize,
}

/// Whether a number is a power of two.
pub open spec fn power_of_two(n: int) -> bool {
    exists|k: nat| n == #[trigger] vstd::arithmetic::power2::pow2(k)
}

/// Whether a size and an alignment make a layout: the size, rounded up to the
/// alignment, stays within what one object may take.
pub open spec fn is_layout(size: usize, align: usize) -> bool {
    power_of_two(align as int) && size <= isize::MAX - (align - 1)
}

/// What a request for a buffer is answered before any memory is asked for.
pub open spec fn request_error(size: usize, align: usize, heap_type: IonHeapType) -> Option<IonError> {
    if size == 0 {
        Some(IonError::InvalidArg)
    } else if heap_type == IonHeapType::Carveout {
        Some(IonError::NotSupported)
    } else if !is_layout(size, align) {
        Some(IonError::InvalidArg)
    } else {
        None
    }
}

/// What a failure to get memory is answered.
pub open spec fn failure_error(failure: DmaFailure) -> IonError {
    match failure {
        DmaFailure::Layout => IonError::InvalidArg,
        DmaFailure::Other => IonError::NoMemory,
    }
}

/// Halving a power of two other than one gives a power of two.
proof fn halves(n: int)
    requires
        n > 1,
    ensures
        power_of_two(n) == (n % 2 == 0 && power_of_two(n / 2)),
{
    vstd::arithmetic::power2::lemma2_to64();
    if power_of_two(n) {
        let k = choose|k: nat| n == #[trigger] vstd::arithmetic::power2::pow2(k);
        assert(k > 0);
        vstd::arithmetic::power2::lemma_pow2_unfold(k);
        assert(n / 2 == vstd::arithmetic::power2::pow2((k - 1) as nat));
    }
    if n % 2 == 0 && power_of_two(n / 2) {
        let k = choose|k: nat| n / 2 == #[trigger] vstd::arithmetic::power2::pow2(k);
        vstd::arithmetic::power2::lemma_pow2_unfold(k + 1);
        assert(n == vstd::arithmetic::power2::pow2(k + 1));
    }
}

/// Tests whether an alignment is a power of two.
pub fn is_power_of_two(align: usize) -> (power: bool)
    ensures
        power == power_of_two(align as int),
        power ==> align > 0,
{
    proof {
        vstd::arithmetic::power2::lemma2_to64();
    }
    if align == 0 {
        proof {
            assert forall|k: nat| 0 != #[trigger] vstd::arithmetic::power2::pow2(k) by {
                vstd::arithmetic::power2::lemma_pow2_pos(k);
            }
        }
        return false;
    }
    let mut rest: usize = align;
    while rest > 1
        invariant
            0 < rest <= align,
            power_of_two(rest as int) == power_of_two(align as int),
        decreases rest,
    {
        proof {
            halves(rest as int);
        }
        if rest % 2 != 0 {
            return false;
        }
        rest = rest / 2;
    }
    assert(1 == vstd::arithmetic::power2::pow2(0));
    true
}

/// Hands out buffers.
#[derive(Clone, Copy, Debug, PartialEq, Eq, Structural)]
pub struct IonHeapManager;

impl IonHeapManager {
    pub fn new() -> (manager: Self)
        ensures
            manager == IonHeapManager,
    {
        IonHeapManager
    }

    /// Checks a request before any memory is asked for.
    pub fn check_request(&self, size: usize, align: usize, heap_type: IonHeapType) -> (result: Result<(), IonError>)
        ensures
            result == match request_error(size, align, heap_type) {
                Some(error) => Err::<(), IonError>(error),
                None => Ok(()),
            },
    {
        if size == 0 {
            return Err(IonError::InvalidArg);
        }
        if heap_type == IonHeapType::Carveout {
            return Err(IonError::NotSupported);
        }
        if !is_power_of_two(align) {
            return Err(IonError::InvalidArg);
        }
        proof {
            vstd::arithmetic::power2::lemma2_to64();
        }
        if align - 1 > isize::MAX as usize || size > isize::MAX as usize - (align - 1) {
            return Err(IonError::InvalidArg);
        }
        Ok(())
    }

    /// Makes a buffer of the memory that a checked request was given, or says
    /// why there is none.
    pub fn alloc_buffer(&self, size: usize, align: usize, heap_type: IonHeapType, memory: Result<DmaRegion, DmaFailure>) -> (result: Result<IonBuffer, IonError>)
        ensures
            result == match request_error(size, align, heap_type) {
                Some(error) => Err::<IonBuffer, IonError>(error),
                None => match memory {
                    Ok(region) => Ok(IonBuffer { region, size }),
                    Err(failure) => Err(failure_error(failure)),
                },
            },
    {
        match self.check_request(size, align, heap_type) {
            Ok(_) => {},
            Err(error) => {
                return Err(error);
            },
        }
        match memory {
            Ok(region) => Ok(IonBuffer { region, size }),
            Err(DmaFailure::Layout) => Err(IonError::InvalidArg),
            Err(DmaFailure::Other) => Err(IonError::NoMemory),
        }
    }
}

} // verus!
