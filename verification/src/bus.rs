//! The exchanges that the driver asks of the bus, and what their outcomes
//! mean.
//!
//! The chip is written with one transfer of two bytes, the register address
//! and the data. It is read with one combined transfer: the register address
//! is written, then one byte is read back.

use vstd::prelude::*;
use vstd::std_specs::convert::FromSpec;
use crate::types::Error;

verus! {

/// One exchange with the chip.
#[derive(Debug, PartialEq, Eq, Copy, Clone, Structural)]
pub enum Transaction {
    /// Write `[register, data]` to the chip at `bus_addr`.
    Write { bus_addr: u8, register: u8, data: u8 },
    /// Write `[register]` to the chip at `bus_addr`, then read one byte, both
    /// in one transfer.
    WriteRead { bus_addr: u8, register: u8 },
}

impl Transaction {
    /// The bus address of the chip.
    pub open spec fn bus_addr_spec(self) -> u8 {
        match self {
            Transaction::Write { bus_addr, .. } => bus_addr,
            Transaction::WriteRead { bus_addr, .. } => bus_addr,
        }
    }

    /// The register that the exchange is about.
    pub open spec fn register_spec(self) -> u8 {
        match self {
            Transaction::Write { register, .. } => register,
            Transaction::WriteRead { register, .. } => register,
        }
    }

    /// The bytes that are sent.
    pub open spec fn payload_spec(self) -> Seq<u8> {
        match self {
            Transaction::Write { register, data, .. } => seq![register, data],
            Transaction::WriteRead { register, .. } => seq![register],
        }
    }

    /// How many bytes are read back after the payload.
    pub open spec fn read_len_spec(self) -> nat {
        match self {
            Transaction::Write { .. } => 0,
            Transaction::WriteRead { .. } => 1,
        }
    }

    /// The bus address of the chip.
    pub fn bus_addr(&self) -> (addr: u8)
        ensures
            addr == self.bus_addr_spec(),
    {
        match self {
            Transaction::Write { bus_addr, .. } => *bus_addr,
            Transaction::WriteRead { bus_addr, .. } => *bus_addr,
        }
    }

    /// The register that the exchange is about.
    pub fn register(&self) -> (register: u8)
        ensures
            register == self.register_spec(),
    {
        match self {
            Transaction::Write { register, .. } => *register,
            Transaction::WriteRead { register, .. } => *register,
        }
    }

    /// The bytes to send: the register address, followed by the data byte
    /// for a write.
    pub fn payload(&self) -> (bytes: Vec<u8>)
        ensures
            bytes@ == self.payload_spec(),
    {
        match self {
            Transaction::Write { register, data, .. } => vec![*register, *data],
            Transaction::WriteRead { register, .. } => vec![*register],
        }
    }

    /// How many bytes to read back after the payload: one for a read, none
    /// for a write.
    pub fn read_len(&self) -> (n: usize)
        ensures
            n == self.read_len_spec(),
    {
        match self {
            Transaction::Write { .. } => 0,
            Transaction::WriteRead { .. } => 1,
        }
    }
}

/// What a write amounts to once the bus has answered: success, or the bus's
/// failure as it came, marked as such.
pub fn write_outcome<E>(reply: Result<(), E>) -> (r: Result<(), Error<E>>)
    ensures
        reply is Ok ==> r is Ok,
        reply is Err ==> r == Err::<(), Error<E>>(Error::Bus(reply->Err_0)),
{
    match reply {
        Ok(()) => Ok(()),
        Err(e) => Err(Error::Bus(e)),
    }
}

/// What a read amounts to once the bus has answered: the value that the
/// byte holds, or the bus's failure as it came, marked as such.
pub fn read_outcome<T: From<u8>, E>(reply: Result<u8, E>) -> (r: Result<T, Error<E>>)
    ensures
        reply is Ok ==> r is Ok && (T::obeys_from_spec() ==> r->Ok_0 == T::from_spec(
            reply->Ok_0,
        )),
        reply is Err ==> r == Err::<T, Error<E>>(Error::Bus(reply->Err_0)),
{
    match reply {
        Ok(raw) => Ok(T::from(raw)),
        Err(e) => Err(Error::Bus(e)),
    }
}

} // verus!
