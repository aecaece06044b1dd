//! The messages of one bus transaction: what goes to the adapter for each,
//! and the caller's buffer that takes what a read brings back.

use crate::error::IoctlError;
use libc::c_int;
use vstd::prelude::*;
use vstd::slice::slice_to_vec;

verus! {

/// Read direction: the adapter fills the message's bytes.
pub const I2C_M_RD: u16 = 0x0001;

/// The address is a ten-bit one.
pub const I2C_M_TEN: u16 = 0x0010;

/// The first byte received gives the length of what follows.
pub const I2C_M_RECV_LEN: u16 = 0x0400;

/// No acknowledgement of bytes read.
pub const I2C_M_NO_RD_ACK: u16 = 0x0800;

/// A missing acknowledgement is taken for one.
pub const I2C_M_IGNORE_NACK: u16 = 0x1000;

/// The direction bit on the wire is reversed.
pub const I2C_M_REV_DIR_ADDR: u16 = 0x2000;

/// No start condition before this message.
pub const I2C_M_NOSTART: u16 = 0x4000;

/// What a message says to the adapter.
pub struct MessageRecord {
    pub addr: u16,
    pub flags: u16,
    pub len: u16,
    pub data: Seq<u8>,
}

impl MessageRecord {
    /// Whether the message asks for a read.
    pub open spec fn is_read(self) -> bool {
        self.flags & I2C_M_RD != 0
    }
}

/// One message of a transaction. It owns the bytes that go to the adapter
/// and may borrow the buffer of the caller that a read is delivered to.
#[derive(Debug)]
pub struct I2cMessage<'a> {
    addr: u16,
    flags: u16,
    len: u16,
    data: Vec<u8>,
    target: Option<&'a mut [u8]>,
}

impl<'a> View for I2cMessage<'a> {
    type V = MessageRecord;

    closed spec fn view(&self) -> MessageRecord {
        MessageRecord { addr: self.addr, flags: self.flags, len: self.len, data: self.data@ }
    }
}

/// Copies `src` over the whole of `dst`.
fn overwrite(dst: &mut [u8], src: &[u8])
    requires
        old(dst)@.len() == src@.len(),
    ensures
        final(dst)@ == src@,
{
    let n = dst.len();
    let mut i: usize = 0;
    while i < n
        invariant
            dst@.len() == n,
            src@.len() == n,
            i <= n,
            forall|j: int| 0 <= j < i ==> dst@[j] == src@[j],
        decreases n - i,
    {
        dst[i] = src[i];
        i += 1;
    }
    assert(dst@ =~= src@);
}

impl<'a> I2cMessage<'a> {
    /// The caller's buffer that this message delivers to, if it has one.
    pub closed spec fn target(self) -> Option<&'a mut [u8]> {
        self.target
    }

    /// The length field counts the bytes of the message, and a buffer to
    /// deliver to has room for exactly those.
    pub open spec fn wf(self) -> bool {
        &&& self@.data.len() == self@.len
        &&& self.target() matches Some(t) ==> t@.len() == self@.len
    }

    /// What the caller's buffer holds once the transaction is over: the
    /// bytes of the message where a read succeeded, and else what it held.
    pub open spec fn delivered(self, success: bool) -> Seq<u8>
        recommends
            self.target() is Some,
    {
        if success && self@.is_read() {
            self@.data
        } else {
            self.target().unwrap()@
        }
    }

    /// A message without the read flag delivers nothing: whether the
    /// transaction succeeds or fails, the buffer that it borrows ends as it
    /// was.
    pub proof fn lemma_write_keeps_buffer(self, success: bool)
        requires
            !self@.is_read(),
            self.target() is Some,
        ensures
            self.delivered(success) == self.target().unwrap()@,
    {
    }

    /// A failed transaction delivers nothing: the buffer that a message
    /// borrows ends as it was, read or write.
    pub proof fn lemma_failure_keeps_buffer(self)
        requires
            self.target() is Some,
        ensures
            self.delivered(false) == self.target().unwrap()@,
    {
    }

    /// A read that succeeded overwrites the whole of the buffer that it
    /// borrows: the buffer ends as the bytes of the message, all of them and
    /// nothing else.
    pub proof fn lemma_success_fills_buffer(self)
        requires
            self.wf(),
            self@.is_read(),
            self.target() is Some,
        ensures
            self.delivered(true) == self@.data,
            self.delivered(true).len() == self.target().unwrap()@.len(),
    {
    }

    /// The address of the device that the message is for.
    pub fn addr(&self) -> (r: u16)
        ensures
            r == self@.addr,
    {
        self.addr
    }

    /// The flags of the message.
    pub fn flags(&self) -> (r: u16)
        ensures
            r == self@.flags,
    {
        self.flags
    }

    /// The number of bytes of the message.
    pub fn len(&self) -> (r: u16)
        ensures
            r == self@.len,
    {
        self.len
    }

    /// The bytes of the message as they stand.
    pub fn data(&self) -> (r: &[u8])
        ensures
            r@ == self@.data,
    {
        self.data.as_slice()
    }

    /// Ends the message: delivers its bytes to the caller's buffer where a
    /// read succeeded, and hands the bytes out.
    fn settle(self, success: bool) -> (bytes: Vec<u8>)
        requires
            self.wf(),
        ensures
            bytes@ == self@.data,
            self.target() matches Some(t) ==> final(t)@ == self.delivered(success),
    {
        let I2cMessage { addr: _, flags, len: _, data, target } = self;
        match target {
            Some(t) => {
                if success && flags & I2C_M_RD != 0 {
                    overwrite(t, data.as_slice());
                } else {
                    // nothing is delivered: the buffer stays as it was
                }
            },
            None => {},
        }
        data
    }
}

/// The messages of a transaction in the order in which the bus sees them.
#[derive(Debug)]
pub struct I2cMessageBuffer<'a> {
    buffer: Vec<I2cMessage<'a>>,
}

impl<'a> View for I2cMessageBuffer<'a> {
    type V = Seq<I2cMessage<'a>>;

    closed spec fn view(&self) -> Seq<I2cMessage<'a>> {
        self.buffer@
    }
}

/// Every message of `messages` is well formed.
pub open spec fn all_wf<'a>(messages: Seq<I2cMessage<'a>>) -> bool {
    forall|i: int| 0 <= i < messages.len() ==> (#[trigger] messages[i]).wf()
}

impl<'a> I2cMessageBuffer<'a> {
    /// Every message of the batch is well formed.
    pub open spec fn wf(self) -> bool {
        all_wf(self@)
    }

    /// A batch without messages.
    pub fn new() -> (r: Self)
        ensures
            r@ == Seq::<I2cMessage<'a>>::empty(),
            r.wf(),
    {
        I2cMessageBuffer { buffer: Vec::new() }
    }

    /// The number of messages.
    pub fn len(&self) -> (r: usize)
        ensures
            r == self@.len(),
    {
        self.buffer.len()
    }

    /// The message at place `i`.
    pub fn message(&self, i: usize) -> (r: &I2cMessage<'a>)
        requires
            i < self@.len(),
        ensures
            *r == self@[i as int],
    {
        &self.buffer[i]
    }

    /// Gives the batch up: every buffer of the caller is left as it was.
    pub fn abandon(self)
        ensures
            forall|i: int|
                0 <= i < self@.len() ==> ((#[trigger] self@[i]).target() matches Some(t)
                    ==> final(t)@ == t@),
    {
    }

    /// Appends a message as it is given, with the bytes that go to the
    /// adapter and the buffer to deliver to.
    pub(crate) fn add_raw(
        &mut self,
        addr: u16,
        flags: u16,
        len: u16,
        data: Vec<u8>,
        target: Option<&'a mut [u8]>,
    )
        requires
            old(self).wf(),
            data@.len() == len,
            target matches Some(t) ==> t@.len() == len,
        ensures
            final(self).wf(),
            final(self)@.len() == old(self)@.len() + 1,
            final(self)@.drop_last() == old(self)@,
            final(self)@.last()@ == (MessageRecord { addr, flags, len, data: data@ }),
            final(self)@.last().target() == target,
    {
        let message = I2cMessage { addr, flags, len, data, target };
        self.buffer.push(message);
        assert(self.buffer@.drop_last() =~= old(self).buffer@);
    }

    /// Appends a read into `buffer`: the read flag is set, whatever `flags`
    /// says of it.
    pub fn add_read(&mut self, addr: u16, flags: u16, buffer: &'a mut [u8])
        requires
            old(self).wf(),
            old(buffer)@.len() <= u16::MAX,
        ensures
            final(self).wf(),
            final(self)@.len() == old(self)@.len() + 1,
            final(self)@.drop_last() == old(self)@,
            final(self)@.last()@ == (MessageRecord {
                addr,
                flags: flags | I2C_M_RD,
                len: old(buffer)@.len() as u16,
                data: old(buffer)@,
            }),
            final(self)@.last()@.is_read(),
            final(self)@.last().target() matches Some(t) && t@ == old(buffer)@ && final(t)@
                == final(buffer)@,
    {
        assert((flags | I2C_M_RD) & I2C_M_RD != 0) by (bit_vector);
        let flags = flags | I2C_M_RD;
        let len = buffer.len() as u16;
        let data = slice_to_vec(buffer);
        self.add_raw(addr, flags, len, data, Some(buffer))
    }

    /// Appends a write of the bytes of `buffer`: the read flag is cleared,
    /// whatever `flags` says of it.
    pub fn add_write(&mut self, addr: u16, flags: u16, buffer: &[u8])
        requires
            old(self).wf(),
            buffer@.len() <= u16::MAX,
        ensures
            final(self).wf(),
            final(self)@.len() == old(self)@.len() + 1,
            final(self)@.drop_last() == old(self)@,
            final(self)@.last()@ == (MessageRecord {
                addr,
                flags: flags & !I2C_M_RD,
                len: buffer@.len() as u16,
                data: buffer@,
            }),
            !final(self)@.last()@.is_read(),
            final(self)@.last().target() is None,
    {
        assert((flags & !I2C_M_RD) & I2C_M_RD == 0) by (bit_vector);
        let flags = flags & !I2C_M_RD;
        let len = buffer.len() as u16;
        let data = slice_to_vec(buffer);
        self.add_raw(addr, flags, len, data, None)
    }

    /// Appends the two messages that read from a register of the device: a
    /// write of the one byte that selects the register, then a read into
    /// `buffer`. In one transaction no stop condition parts them.
    pub fn add_read_reg(&mut self, addr: u16, flags: u16, register: &u8, buffer: &'a mut [u8])
        requires
            old(self).wf(),
            old(buffer)@.len() <= u16::MAX,
        ensures
            final(self).wf(),
            final(self)@.len() == old(self)@.len() + 2,
            final(self)@.take(old(self)@.len() as int) == old(self)@,
            final(self)@[old(self)@.len() as int]@ == (MessageRecord {
                addr,
                flags: flags & !I2C_M_RD,
                len: 1,
                data: seq![*register],
            }),
            !final(self)@[old(self)@.len() as int]@.is_read(),
            final(self)@[old(self)@.len() as int].target() is None,
            final(self)@.last()@ == (MessageRecord {
                addr,
                flags: flags | I2C_M_RD,
                len: old(buffer)@.len() as u16,
                data: old(buffer)@,
            }),
            final(self)@.last()@.is_read(),
            final(self)@.last().target() matches Some(t) && t@ == old(buffer)@ && final(t)@
                == final(buffer)@,
    {
        assert((flags & !I2C_M_RD) & I2C_M_RD == 0) by (bit_vector);
        assert((flags & !I2C_M_RD) | I2C_M_RD == flags | I2C_M_RD) by (bit_vector);
        let flags = flags & !I2C_M_RD;
        let mut select: Vec<u8> = Vec::new();
        select.push(*register);
        assert(select@ =~= seq![*register]);
        self.add_raw(addr, flags, 1, select, None);
        let ghost middle = self@;
        self.add_read(addr, flags, buffer);
        assert(self@.take(old(self)@.len() as int) =~= middle.drop_last());
        assert(self@[old(self)@.len() as int] == middle.last());
    }
}

/// A transaction as it goes to the adapter: the messages in their order and
/// their number.
#[derive(Debug)]
pub struct I2cReadWriteData<'a> {
    messages: I2cMessageBuffer<'a>,
    num: u32,
}

impl<'a> View for I2cReadWriteData<'a> {
    type V = Seq<I2cMessage<'a>>;

    closed spec fn view(&self) -> Seq<I2cMessage<'a>> {
        self.messages@
    }
}

impl<'a> I2cReadWriteData<'a> {
    /// The count that goes with the messages.
    pub closed spec fn spec_num(self) -> u32 {
        self.num
    }

    /// Every message is well formed, and the count is their number.
    pub open spec fn wf(self) -> bool {
        &&& all_wf(self@)
        &&& self.spec_num() == self@.len()
    }

    /// What the caller of `into_bytes` receives: the bytes of the last
    /// message, or nothing where there is no message.
    pub open spec fn last_data(self) -> Seq<u8> {
        if self@.len() > 0 {
            self@.last()@.data
        } else {
            Seq::empty()
        }
    }

    /// Takes a batch as the plan of one transaction.
    pub fn from_messages(buffer: I2cMessageBuffer<'a>) -> (r: Self)
        requires
            buffer.wf(),
            buffer@.len() <= u32::MAX,
        ensures
            r@ == buffer@,
            r.spec_num() == buffer@.len(),
            r.wf(),
    {
        let num = buffer.len() as u32;
        I2cReadWriteData { messages: buffer, num }
    }

    /// The number of messages.
    pub fn num(&self) -> (r: u32)
        ensures
            r == self.spec_num(),
    {
        self.num
    }

    /// The message at place `i`.
    pub fn message(&self, i: usize) -> (r: &I2cMessage<'a>)
        requires
            i < self@.len(),
        ensures
            *r == self@[i as int],
    {
        self.messages.message(i)
    }

    /// The bytes of message `i`, open to the adapter: it reads there what a
    /// write sends, and leaves there what a read received. The message keeps
    /// its address, flags, length and the buffer it delivers to.
    pub fn payload_mut(&mut self, i: usize) -> (r: &mut [u8])
        requires
            i < old(self)@.len(),
        ensures
            r@ == old(self)@[i as int]@.data,
            final(self).spec_num() == old(self).spec_num(),
            final(self)@.len() == old(self)@.len(),
            forall|j: int|
                0 <= j < old(self)@.len() && j != i ==> final(self)@[j] == old(self)@[j],
            final(self)@[i as int]@ == (MessageRecord {
                data: final(r)@,
                ..old(self)@[i as int]@
            }),
            final(self)@[i as int].target() == old(self)@[i as int].target(),
            old(self).wf() && final(r)@.len() == r@.len() ==> final(self).wf(),
    {
        self.messages.buffer[i].data.as_mut_slice()
    }

    /// Ends every message, the last one first, and hands out the bytes of
    /// the last.
    fn settle(self, success: bool) -> (bytes: Vec<u8>)
        requires
            self.wf(),
        ensures
            bytes@ == self.last_data(),
            forall|i: int|
                0 <= i < self@.len() ==> ((#[trigger] self@[i]).target() matches Some(t)
                    ==> final(t)@ == self@[i].delivered(success)),
    {
        let ghost all = self@;
        let mut rest = self.messages.buffer;
        let bytes = match rest.pop() {
            Some(last) => last.settle(success),
            None => Vec::new(),
        };
        while rest.len() > 0
            invariant
                rest@.len() <= all.len(),
                rest@ =~= all.take(rest@.len() as int),
                all_wf(all),
                forall|i: int|
                    rest@.len() <= i < all.len() ==> ((#[trigger] all[i]).target() matches Some(t)
                        ==> final(t)@ == all[i].delivered(success)),
            decreases rest@.len(),
        {
            match rest.pop() {
                Some(message) => {
                    let _ = message.settle(success);
                },
                None => {},
            }
        }
        bytes
    }

    /// Gives the transaction up before it went to the adapter: every buffer
    /// of the caller is left as it was.
    pub fn abandon(self)
        ensures
            forall|i: int|
                0 <= i < self@.len() ==> ((#[trigger] self@[i]).target() matches Some(t)
                    ==> final(t)@ == t@),
    {
    }

    /// Ends the transaction with what the adapter reported. On success
    /// every read message with a buffer to deliver to overwrites the whole
    /// of it with its bytes. Every other buffer, and on failure every
    /// buffer, is left as it was.
    pub fn complete(self, outcome: Result<c_int, std::io::Error>) -> (r: Result<(), IoctlError>)
        requires
            self.wf(),
        ensures
            outcome is Ok ==> r is Ok,
            outcome matches Err(e) ==> r == Err::<(), IoctlError>(IoctlError::IoctlError(e)),
            forall|i: int|
                0 <= i < self@.len() ==> ((#[trigger] self@[i]).target() matches Some(t)
                    ==> final(t)@ == self@[i].delivered(outcome is Ok)),
    {
        match outcome {
            Ok(_) => {
                let _ = self.settle(true);
                Ok(())
            },
            Err(e) => {
                let _ = self.settle(false);
                Err(IoctlError::IoctlError(e))
            },
        }
    }

    /// Ends the transaction as `complete` does, and on success hands out
    /// the bytes of the last message.
    pub fn into_bytes(self, outcome: Result<c_int, std::io::Error>) -> (r: Result<
        Vec<u8>,
        IoctlError,
    >)
        requires
            self.wf(),
        ensures
            outcome is Ok ==> (r matches Ok(bytes) && bytes@ == self.last_data()),
            outcome matches Err(e) ==> r == Err::<Vec<u8>, IoctlError>(IoctlError::IoctlError(e)),
            forall|i: int|
                0 <= i < self@.len() ==> ((#[trigger] self@[i]).target() matches Some(t)
                    ==> final(t)@ == self@[i].delivered(outcome is Ok)),
    {
        match outcome {
            Ok(_) => Ok(self.settle(true)),
            Err(e) => {
                let _ = self.settle(false);
                Err(IoctlError::IoctlError(e))
            },
        }
    }
}

} // verus!
