//! The memory and port buses: a capability of byte reads and writes over an
//! address range, with the main memory and the LED port panel as the two
//! implementations the toolchain ships.

use vstd::prelude::*;

use crate::x86::Operation;

verus! {

/// Everything the CPU engine can report to its host.  A zero divisor is
/// never reported here: the engine converts it into the interrupt-zero
/// trap, as the divide semantics direct.
#[derive(Clone, Copy, Debug, PartialEq, Eq, Structural)]
pub enum CpuError {
    /// A memory access fell outside the bus.
    InvalidAddress(u32),
    /// A port access fell outside the port bus.
    InvalidPort(u16),
    /// The engine has no semantics for this operation.
    UnsupportedOperation(Operation),
    /// The fetch path could not decode an instruction.
    Decode(crate::decode::Error),
}

/// A byte-addressed bus: the capability set is one byte read and one byte
/// write, nothing else.  `contents` models the addressable bytes and
/// `fault` the error reported for an address beyond them.
pub trait Bus: Sized {
    spec fn contents(&self) -> Seq<u8>;

    spec fn fault(&self, address: u32) -> CpuError;

    /// One byte, or the bus fault for an address out of range.
    fn read(&self, address: u32) -> (r: Result<u8, CpuError>)
        ensures
            address < self.contents().len() ==> r == Ok::<u8, CpuError>(
                self.contents()[address as int],
            ),
            address >= self.contents().len() ==> r == Err::<u8, CpuError>(self.fault(address)),
    ;

    /// Store one byte, or report the bus fault for an address out of range;
    /// a fault leaves the contents unchanged.
    fn write(&mut self, address: u32, value: u8) -> (r: Result<(), CpuError>)
        ensures
            forall|a: u32| final(self).fault(a) == old(self).fault(a),
            address < old(self).contents().len() ==> r == Ok::<(), CpuError>(())
                && final(self).contents() == old(self).contents().update(address as int, value),
            address >= old(self).contents().len() ==> r == Err::<(), CpuError>(
                old(self).fault(address),
            ) && final(self).contents() == old(self).contents(),
    ;
}

/// Plain random-access memory backed by a byte vector, reporting
/// `InvalidAddress` beyond its capacity.
pub struct RandomAccessMemory {
    pub bytes: Vec<u8>,
}

impl RandomAccessMemory {
    /// Zero-filled memory of the given size.
    pub fn with_capacity(capacity: usize) -> (r: Self)
        ensures
            r.bytes@ == Seq::<u8>::new(capacity as nat, |i: int| 0u8),
    {
        let bytes = vec![0u8; capacity];
        proof {
            assert(bytes@ =~= Seq::<u8>::new(capacity as nat, |i: int| 0u8));
        }
        Self { bytes }
    }

    /// Memory holding exactly the given bytes.
    pub fn from_bytes(bytes: Vec<u8>) -> (r: Self)
        ensures
            r.bytes == bytes,
    {
        Self { bytes }
    }
}

impl Bus for RandomAccessMemory {
    open spec fn contents(&self) -> Seq<u8> {
        self.bytes@
    }

    open spec fn fault(&self, address: u32) -> CpuError {
        CpuError::InvalidAddress(address)
    }

    fn read(&self, address: u32) -> (r: Result<u8, CpuError>) {
        if (address as usize) < self.bytes.len() {
            Ok(self.bytes[address as usize])
        } else {
            Err(CpuError::InvalidAddress(address))
        }
    }

    fn write(&mut self, address: u32, value: u8) -> (r: Result<(), CpuError>) {
        if (address as usize) < self.bytes.len() {
            self.bytes.set(address as usize, value);
            Ok(())
        } else {
            Err(CpuError::InvalidAddress(address))
        }
    }
}

/// The LED panel: eight ports, one byte each, reporting `InvalidPort`
/// beyond them.
pub struct Io {
    pub data: Vec<u8>,
}

impl Io {
    /// A panel with every LED byte clear.
    pub fn new() -> (r: Self)
        ensures
            r.data@ == Seq::<u8>::new(8, |i: int| 0u8),
    {
        let data = vec![0u8; 8];
        proof {
            assert(data@ =~= Seq::<u8>::new(8, |i: int| 0u8));
        }
        Self { data }
    }
}

impl Bus for Io {
    open spec fn contents(&self) -> Seq<u8> {
        self.data@
    }

    open spec fn fault(&self, address: u32) -> CpuError {
        CpuError::InvalidPort(address as u16)
    }

    fn read(&self, address: u32) -> (r: Result<u8, CpuError>) {
        if (address as usize) < self.data.len() {
            Ok(self.data[address as usize])
        } else {
            Err(CpuError::InvalidPort(address as u16))
        }
    }

    fn write(&mut self, address: u32, value: u8) -> (r: Result<(), CpuError>) {
        if (address as usize) < self.data.len() {
            self.data.set(address as usize, value);
            Ok(())
        } else {
            Err(CpuError::InvalidPort(address as u16))
        }
    }
}

} // verus!
