//! Master-side access to an I2C bus through the combined read/write
//! transaction of the kernel's device interface.
//!
//! The library decides and records; the caller owns the device and makes the
//! two requests. A handle is made from the functionality that the adapter
//! reported. Each operation on it first asks whether the adapter does plain
//! I2C, and only then looks at what it was given. It yields an
//! [`I2cTransfer`]: the messages to hand to the adapter under [`I2C_RDWR`].
//! The adapter works on the bytes of each message in place, and the transfer
//! is then ended with what the request returned: only then, and only on
//! success, does anything reach the buffers that the caller lent.

pub mod error;
pub mod func;
pub mod messages;

pub use error::{I2cError, I2cOperation, I2cResult, IoctlError};
pub use func::Functionality;
pub use messages::{
    I2cMessage, I2cMessageBuffer, I2cReadWriteData, MessageRecord, I2C_M_IGNORE_NACK,
    I2C_M_NOSTART, I2C_M_NO_RD_ACK, I2C_M_RD, I2C_M_RECV_LEN, I2C_M_REV_DIR_ADDR, I2C_M_TEN,
};

use func::{I2C_FUNC_10BIT_ADDR, I2C_FUNC_I2C};
use libc::{c_int, c_ulong};
use messages::all_wf;
use vstd::prelude::*;

verus! {

/// The request that asks an adapter for its functionality.
pub const I2C_FUNCS: c_ulong = 0x0705;

/// The request that runs a transaction of reads and writes.
pub const I2C_RDWR: c_ulong = 0x0707;

/// Whether `addr` is an address that an adapter with `func` can reach: a
/// ten-bit address where it knows those, a seven-bit one where it does not.
pub open spec fn address_in_range(addr: u16, func: Functionality) -> bool {
    if func.has(I2C_FUNC_10BIT_ADDR) {
        addr <= 0x3FF
    } else {
        addr <= 0x7F
    }
}

/// Turns what a request returned into a result: a negative value stands for
/// the error that the operating system recorded last.
pub fn get_err(code: c_int) -> (r: Result<c_int, std::io::Error>)
    ensures
        code >= 0 ==> r == Ok::<c_int, std::io::Error>(code),
        code < 0 ==> r is Err,
{
    if code >= 0 {
        Ok(code)
    } else {
        Err(std::io::Error::last_os_error())
    }
}

/// A device on the bus: its address and what the adapter can do.
#[derive(Debug)]
pub struct I2c {
    addr: u16,
    func: Functionality,
}

impl I2c {
    /// The address of the device.
    pub closed spec fn spec_addr(self) -> u16 {
        self.addr
    }

    /// What the adapter can do.
    pub closed spec fn spec_func(self) -> Functionality {
        self.func
    }

    /// The address is one that the adapter can reach.
    #[verifier::type_invariant]
    spec fn reachable(self) -> bool {
        address_in_range(self.addr, self.func)
    }

    /// Tests an address against what the adapter can do.
    pub fn validate(addr: u16, func: &Functionality) -> (r: Result<(), I2cError>)
        ensures
            address_in_range(addr, *func) ==> r is Ok,
            !address_in_range(addr, *func) ==> r matches Err(I2cError::AddressError),
    {
        let limit: u16 = if func._10_bit_addr() {
            0x3FF
        } else {
            0x7F
        };
        if addr > limit {
            Err(I2cError::AddressError)
        } else {
            Ok(())
        }
    }

    /// Makes the handle for the device at `addr` behind an adapter that
    /// reported `func`.
    pub fn open(addr: u16, func: Functionality) -> (r: I2cResult<Self>)
        ensures
            address_in_range(addr, func) ==> (r matches Ok(handle) && handle.spec_addr() == addr
                && handle.spec_func() == func),
            !address_in_range(addr, func) ==> r matches Err(I2cError::AddressError),
    {
        match Self::validate(addr, &func) {
            Ok(()) => Ok(I2c { addr, func }),
            Err(e) => Err(e),
        }
    }

    /// Reads the answer to the functionality request: `code` is what the
    /// request returned, `func` the mask that it filled in.
    pub fn get_func(code: c_int, func: c_ulong) -> (r: Result<Functionality, IoctlError>)
        ensures
            code >= 0 ==> r == Ok::<Functionality, IoctlError>(Functionality(func)),
            code < 0 ==> r matches Err(IoctlError::IoctlError(_)),
    {
        match get_err(code) {
            Ok(_) => Ok(Functionality(func)),
            Err(e) => Err(IoctlError::from(e)),
        }
    }

    /// What the adapter can do.
    pub fn functionality(&self) -> (r: &Functionality)
        ensures
            *r == self.spec_func(),
    {
        &self.func
    }

    /// The address of the device. It was in the adapter's range when the
    /// handle was made, and is so for as long as the handle lives.
    pub fn address(&self) -> (r: u16)
        ensures
            r == self.spec_addr(),
            address_in_range(r, self.spec_func()),
    {
        proof {
            use_type_invariant(self);
        }
        self.addr
    }

    /// Tests that the adapter supports every bit of `func`, and reports the
    /// bits that it lacks.
    pub fn require_func(&self, func: c_ulong) -> (r: Result<(), Functionality>)
        ensures
            r is Ok <==> self.spec_func().0 & func == func,
            r matches Err(lack) ==> lack == Functionality(self.spec_func().missing(func)) && lack.0
                != 0,
    {
        self.func.require(func)
    }
}

/// Decides whether a transaction may go to the adapter of `handle`: it
/// may where the adapter does plain I2C, and else the error holds the
/// missing bit. Every operation asks this first, before it looks at what it
/// was given.
pub fn i2c_rdwr_request(handle: &I2c) -> (r: Result<(), IoctlError>)
    ensures
        handle.spec_func().has(I2C_FUNC_I2C) ==> r is Ok,
        !handle.spec_func().has(I2C_FUNC_I2C) ==> (r matches Err(
            IoctlError::FunctionalityError(lack),
        ) && lack == Functionality(I2C_FUNC_I2C)),
{
    let have: c_ulong = handle.func.0;
    assert((have & I2C_FUNC_I2C == I2C_FUNC_I2C) <==> (have & I2C_FUNC_I2C != 0)) by (bit_vector);
    assert(have & I2C_FUNC_I2C == 0 ==> !have & I2C_FUNC_I2C == I2C_FUNC_I2C) by (bit_vector);
    match handle.require_func(I2C_FUNC_I2C) {
        Ok(()) => Ok(()),
        Err(lack) => Err(IoctlError::from(lack)),
    }
}

/// The error of an operation that the adapter cannot run for want of plain
/// I2C.
pub open spec fn refusal(operation: I2cOperation) -> I2cError {
    operation.failure(IoctlError::FunctionalityError(Functionality(I2C_FUNC_I2C)))
}

/// The message that selects `register` of the device at `addr`: a write of
/// the one byte that names it.
pub open spec fn select_record(addr: u16, register: u8) -> MessageRecord {
    MessageRecord { addr, flags: 0, len: 1, data: seq![register] }
}

/// A vector of `n` zero bytes.
fn zeros(n: usize) -> (v: Vec<u8>)
    ensures
        v@ == Seq::new(n as nat, |i: int| 0u8),
{
    let mut v: Vec<u8> = Vec::new();
    let mut i: usize = 0;
    while i < n
        invariant
            i <= n,
            v@ == Seq::new(i as nat, |k: int| 0u8),
        decreases n - i,
    {
        v.push(0);
        i += 1;
        assert(v@ =~= Seq::new(i as nat, |k: int| 0u8));
    }
    v
}

/// A transaction that is cleared to go to the adapter, and the operation
/// that it belongs to. Only [`I2cTransfer::begin`] and the operations of a
/// handle make one, and only for an adapter that does plain I2C. The
/// messages are fixed from then on: the adapter reaches their bytes and
/// nothing else.
#[derive(Debug)]
pub struct I2cTransfer<'a> {
    data: I2cReadWriteData<'a>,
    operation: I2cOperation,
}

impl<'a> I2cTransfer<'a> {
    /// The transaction that goes to the adapter.
    pub closed spec fn plan(self) -> I2cReadWriteData<'a> {
        self.data
    }

    /// The operation that the transfer belongs to.
    pub closed spec fn spec_operation(self) -> I2cOperation {
        self.operation
    }

    /// Clears `data` for the adapter of `handle` on behalf of `operation`.
    /// An adapter without plain I2C gets nothing: the error names the
    /// missing bit, and the buffers of the caller are as they were.
    pub fn begin(handle: &I2c, data: I2cReadWriteData<'a>, operation: I2cOperation) -> (r:
        I2cResult<Self>)
        ensures
            handle.spec_func().has(I2C_FUNC_I2C) ==> (r matches Ok(t) && t.plan() == data
                && t.spec_operation() == operation),
            !handle.spec_func().has(I2C_FUNC_I2C) ==> (r matches Err(e) && e == refusal(
                operation,
            )),
            !handle.spec_func().has(I2C_FUNC_I2C) ==> forall|i: int|
                0 <= i < data@.len() ==> ((#[trigger] data@[i]).target() matches Some(t)
                    ==> final(t)@ == t@),
    {
        match i2c_rdwr_request(handle) {
            Ok(()) => Ok(I2cTransfer { data, operation }),
            Err(e) => {
                data.abandon();
                Err(operation.wrap(e))
            },
        }
    }

    /// The operation that the transfer belongs to.
    pub fn operation(&self) -> (r: I2cOperation)
        ensures
            r == self.spec_operation(),
    {
        self.operation
    }

    /// The transaction that goes to the adapter: its messages and their
    /// number.
    pub fn data(&self) -> (r: &I2cReadWriteData<'a>)
        ensures
            *r == self.plan(),
    {
        &self.data
    }

    /// The bytes of message `i`, open to the adapter: it reads there what a
    /// write sends, and leaves there what a read received. Nothing else of
    /// the transfer changes.
    pub fn payload_mut(&mut self, i: usize) -> (r: &mut [u8])
        requires
            i < old(self).plan()@.len(),
        ensures
            r@ == old(self).plan()@[i as int]@.data,
            final(self).spec_operation() == old(self).spec_operation(),
            final(self).plan().spec_num() == old(self).plan().spec_num(),
            final(self).plan()@.len() == old(self).plan()@.len(),
            forall|j: int|
                0 <= j < old(self).plan()@.len() && j != i ==> final(self).plan()@[j] == old(self).plan()@[j],
            final(self).plan()@[i as int]@ == (MessageRecord {
                data: final(r)@,
                ..old(self).plan()@[i as int]@
            }),
            final(self).plan()@[i as int].target() == old(self).plan()@[i as int].target(),
            old(self).plan().wf() && final(r)@.len() == r@.len() ==> final(self).plan().wf(),
    {
        self.data.payload_mut(i)
    }

    /// Ends the transfer with what the request returned. On success every
    /// read message that has a buffer of the caller overwrites the whole of
    /// it with the bytes that the adapter left in the message. Every other
    /// buffer, and on failure every buffer, is left as it was, and the
    /// error of the operating system comes back under the operation.
    pub fn complete(self, outcome: Result<c_int, std::io::Error>) -> (r: I2cResult<()>)
        requires
            self.plan().wf(),
        ensures
            outcome is Ok ==> r is Ok,
            outcome matches Err(e) ==> (r matches Err(f) && f == self.spec_operation().failure(
                IoctlError::IoctlError(e),
            )),
            forall|i: int|
                0 <= i < self.plan()@.len() ==> ((#[trigger] self.plan()@[i]).target() matches Some(t) ==> final(t)@ == self.plan()@[i].delivered(outcome is Ok)),
    {
        let I2cTransfer { data, operation } = self;
        match data.complete(outcome) {
            Ok(()) => Ok(()),
            Err(e) => Err(operation.wrap(e)),
        }
    }

    /// Ends the transfer as `complete` does, and on success hands out the
    /// bytes that the adapter left in the last message.
    pub fn into_bytes(self, outcome: Result<c_int, std::io::Error>) -> (r: I2cResult<Vec<u8>>)
        requires
            self.plan().wf(),
        ensures
            outcome is Ok ==> (r matches Ok(bytes) && bytes@ == self.plan().last_data()),
            outcome matches Err(e) ==> (r matches Err(f) && f == self.spec_operation().failure(
                IoctlError::IoctlError(e),
            )),
            forall|i: int|
                0 <= i < self.plan()@.len() ==> ((#[trigger] self.plan()@[i]).target() matches Some(t) ==> final(t)@ == self.plan()@[i].delivered(outcome is Ok)),
    {
        let I2cTransfer { data, operation } = self;
        match data.into_bytes(outcome) {
            Ok(bytes) => Ok(bytes),
            Err(e) => Err(operation.wrap(e)),
        }
    }
}

impl I2c {
    /// Begins a read of `bytes` bytes from `register`: a write of the
    /// register's number, then a read. The bytes come out of
    /// [`I2cTransfer::into_bytes`]. An adapter without plain I2C is refused
    /// whatever `bytes` is.
    pub fn i2c_read_bytes<'a>(&self, register: u8, bytes: usize) -> (r: I2cResult<I2cTransfer<'a>>)
        requires
            self.spec_func().has(I2C_FUNC_I2C) ==> bytes <= u16::MAX,
        ensures
            self.spec_func().has(I2C_FUNC_I2C) ==> (r matches Ok(t) && {
                &&& t.spec_operation() == I2cOperation::Read
                &&& t.plan().wf()
                &&& t.plan()@.len() == 2
                &&& t.plan()@[0]@ == select_record(self.spec_addr(), register)
                &&& t.plan()@[0].target() is None
                &&& t.plan()@[1]@ == (MessageRecord {
                    addr: self.spec_addr(),
                    flags: I2C_M_RD,
                    len: bytes as u16,
                    data: Seq::new(bytes as nat, |i: int| 0u8),
                })
                &&& t.plan()@[1].target() is None
            }),
            !self.spec_func().has(I2C_FUNC_I2C) ==> (r matches Err(e) && e == refusal(
                I2cOperation::Read,
            )),
    {
        match i2c_rdwr_request(self) {
            Err(e) => Err(I2cOperation::Read.wrap(e)),
            Ok(()) => {
                let mut messages = I2cMessageBuffer::new();
                let mut select: Vec<u8> = Vec::new();
                select.push(register);
                assert(select@ =~= seq![register]);
                messages.add_raw(self.addr, 0, 1, select, None);
                let ghost first = messages@;
                messages.add_raw(self.addr, I2C_M_RD, bytes as u16, zeros(bytes), None);
                assert(messages@[0] == first.last());
                let data = I2cReadWriteData::from_messages(messages);
                Ok(I2cTransfer { data, operation: I2cOperation::Read })
            },
        }
    }

    /// Begins a read from `register` into `buffer`: a write of the
    /// register's number, then a read of as many bytes as `buffer` holds.
    /// Nothing reaches `buffer` before the transfer is ended.
    pub fn i2c_read<'a>(&self, register: u8, buffer: &'a mut [u8]) -> (r: I2cResult<
        I2cTransfer<'a>,
    >)
        requires
            self.spec_func().has(I2C_FUNC_I2C) ==> old(buffer)@.len() <= u16::MAX,
        ensures
            self.spec_func().has(I2C_FUNC_I2C) ==> (r matches Ok(t) && {
                &&& t.spec_operation() == I2cOperation::Read
                &&& t.plan().wf()
                &&& t.plan()@.len() == 2
                &&& t.plan()@[0]@ == select_record(self.spec_addr(), register)
                &&& t.plan()@[0].target() is None
                &&& t.plan()@[1]@ == (MessageRecord {
                    addr: self.spec_addr(),
                    flags: I2C_M_RD,
                    len: old(buffer)@.len() as u16,
                    data: old(buffer)@,
                })
                &&& t.plan()@[1].target() matches Some(x) && x@ == old(buffer)@ && final(x)@
                    == final(buffer)@
            }),
            !self.spec_func().has(I2C_FUNC_I2C) ==> (r matches Err(e) && e == refusal(
                I2cOperation::Read,
            )),
            !self.spec_func().has(I2C_FUNC_I2C) ==> final(buffer)@ == old(buffer)@,
    {
        assert(0u16 & !I2C_M_RD == 0) by (bit_vector);
        assert(0u16 | I2C_M_RD == I2C_M_RD) by (bit_vector);
        match i2c_rdwr_request(self) {
            Err(e) => Err(I2cOperation::Read.wrap(e)),
            Ok(()) => {
                let mut messages = I2cMessageBuffer::new();
                messages.add_read_reg(self.addr, 0, &register, buffer);
                let data = I2cReadWriteData::from_messages(messages);
                Ok(I2cTransfer { data, operation: I2cOperation::Read })
            },
        }
    }

    /// Begins a write of the bytes of `buffer` to `register`: one message
    /// that holds the register's number and then the bytes.
    pub fn i2c_write<'a>(&self, register: u8, buffer: &[u8]) -> (r: I2cResult<I2cTransfer<'a>>)
        requires
            self.spec_func().has(I2C_FUNC_I2C) ==> buffer@.len() < u16::MAX,
        ensures
            self.spec_func().has(I2C_FUNC_I2C) ==> (r matches Ok(t) && {
                &&& t.spec_operation() == I2cOperation::Write
                &&& t.plan().wf()
                &&& t.plan()@.len() == 1
                &&& t.plan()@[0]@ == (MessageRecord {
                    addr: self.spec_addr(),
                    flags: 0,
                    len: (buffer@.len() + 1) as u16,
                    data: seq![register] + buffer@,
                })
                &&& t.plan()@[0].target() is None
            }),
            !self.spec_func().has(I2C_FUNC_I2C) ==> (r matches Err(e) && e == refusal(
                I2cOperation::Write,
            )),
    {
        assert(0u16 & !I2C_M_RD == 0) by (bit_vector);
        match i2c_rdwr_request(self) {
            Err(e) => Err(I2cOperation::Write.wrap(e)),
            Ok(()) => {
                // the register goes first, in one message with the bytes
                let mut new_buffer: Vec<u8> = Vec::with_capacity(buffer.len() + 1);
                new_buffer.push(register);
                new_buffer.extend_from_slice(buffer);
                assert(new_buffer@ =~= seq![register] + buffer@);
                let mut messages = I2cMessageBuffer::new();
                messages.add_write(self.addr, 0, new_buffer.as_slice());
                let data = I2cReadWriteData::from_messages(messages);
                Ok(I2cTransfer { data, operation: I2cOperation::Write })
            },
        }
    }

    /// An empty batch for this device.
    pub fn i2c_buffer(&self) -> (r: I2cBuffer<'_>)
        ensures
            r@ == Seq::<I2cMessage<'_>>::empty(),
            r.handle() == *self,
    {
        I2cBuffer { buffer: I2cMessageBuffer::new(), handle: self }
    }
}

/// A batch of messages for one device, built one message at a time and
/// executed as one transaction.
#[derive(Debug)]
pub struct I2cBuffer<'a> {
    buffer: I2cMessageBuffer<'a>,
    handle: &'a I2c,
}

impl<'a> View for I2cBuffer<'a> {
    type V = Seq<I2cMessage<'a>>;

    closed spec fn view(&self) -> Seq<I2cMessage<'a>> {
        self.buffer@
    }
}

impl<'a> I2cBuffer<'a> {
    /// The device that the batch is for.
    pub closed spec fn handle(self) -> I2c {
        *self.handle
    }

    /// The number of messages so far.
    pub fn len(&self) -> (r: usize)
        ensures
            r == self@.len(),
    {
        self.buffer.len()
    }

    /// Appends a read into `buffer`, with the read flag set.
    pub fn add_read(self, flags: u16, buffer: &'a mut [u8]) -> (r: Self)
        requires
            all_wf(self@),
            old(buffer)@.len() <= u16::MAX,
        ensures
            r.handle() == self.handle(),
            all_wf(r@),
            r@.len() == self@.len() + 1,
            r@.drop_last() == self@,
            r@.last()@ == (MessageRecord {
                addr: self.handle().spec_addr(),
                flags: flags | I2C_M_RD,
                len: old(buffer)@.len() as u16,
                data: old(buffer)@,
            }),
            r@.last()@.is_read(),
            r@.last().target() matches Some(t) && t@ == old(buffer)@ && final(t)@
                == final(buffer)@,
    {
        let I2cBuffer { buffer: mut messages, handle } = self;
        messages.add_read(handle.addr, flags, buffer);
        I2cBuffer { buffer: messages, handle }
    }

    /// Appends a write of the bytes of `buffer`, with the read flag
    /// cleared.
    pub fn add_write(self, flags: u16, buffer: &[u8]) -> (r: Self)
        requires
            all_wf(self@),
            buffer@.len() <= u16::MAX,
        ensures
            r.handle() == self.handle(),
            all_wf(r@),
            r@.len() == self@.len() + 1,
            r@.drop_last() == self@,
            r@.last()@ == (MessageRecord {
                addr: self.handle().spec_addr(),
                flags: flags & !I2C_M_RD,
                len: buffer@.len() as u16,
                data: buffer@,
            }),
            !r@.last()@.is_read(),
            r@.last().target() is None,
    {
        let I2cBuffer { buffer: mut messages, handle } = self;
        messages.add_write(handle.addr, flags, buffer);
        I2cBuffer { buffer: messages, handle }
    }

    /// Appends a message over `buffer` with `flags` as they are given: the
    /// caller answers for them. The adapter gets the bytes of `buffer`, and
    /// where the flags ask for a read, `buffer` takes what it brings back.
    pub fn add_raw(self, flags: u16, buffer: &'a mut [u8]) -> (r: Self)
        requires
            all_wf(self@),
            old(buffer)@.len() <= u16::MAX,
        ensures
            r.handle() == self.handle(),
            all_wf(r@),
            r@.len() == self@.len() + 1,
            r@.drop_last() == self@,
            r@.last()@ == (MessageRecord {
                addr: self.handle().spec_addr(),
                flags,
                len: old(buffer)@.len() as u16,
                data: old(buffer)@,
            }),
            r@.last().target() matches Some(t) && t@ == old(buffer)@ && final(t)@
                == final(buffer)@,
    {
        let I2cBuffer { buffer: mut messages, handle } = self;
        let len = buffer.len() as u16;
        let data = vstd::slice::slice_to_vec(buffer);
        messages.add_raw(handle.addr, flags, len, data, Some(buffer));
        I2cBuffer { buffer: messages, handle }
    }

    /// Hands the batch over as one transaction. An adapter without plain
    /// I2C gets nothing, however many messages the batch holds, and the
    /// buffers of the caller are as they were.
    pub fn execute(self) -> (r: I2cResult<I2cTransfer<'a>>)
        requires
            all_wf(self@),
            self.handle().spec_func().has(I2C_FUNC_I2C) ==> self@.len() <= u32::MAX,
        ensures
            self.handle().spec_func().has(I2C_FUNC_I2C) ==> (r matches Ok(t) && t.spec_operation()
                == I2cOperation::Buffer && t.plan().wf() && t.plan()@ == self@),
            !self.handle().spec_func().has(I2C_FUNC_I2C) ==> (r matches Err(e) && e == refusal(
                I2cOperation::Buffer,
            )),
            !self.handle().spec_func().has(I2C_FUNC_I2C) ==> forall|i: int|
                0 <= i < self@.len() ==> ((#[trigger] self@[i]).target() matches Some(t)
                    ==> final(t)@ == t@),
    {
        let I2cBuffer { buffer, handle } = self;
        match i2c_rdwr_request(handle) {
            Err(e) => {
                buffer.abandon();
                Err(I2cOperation::Buffer.wrap(e))
            },
            Ok(()) => {
                let data = I2cReadWriteData::from_messages(buffer);
                Ok(I2cTransfer { data, operation: I2cOperation::Buffer })
            },
        }
    }
}

} // verus!
