//! What an adapter can do: the bitmask that the functionality query reports,
//! with one predicate per bit and the test for missing bits.

use libc::c_ulong;
use vstd::prelude::*;
use vstd::string::*;

verus! {

pub const I2C_FUNC_I2C: c_ulong = 0x00000001;

pub const I2C_FUNC_10BIT_ADDR: c_ulong = 0x00000002;

pub const I2C_FUNC_PROTOCOL_MANGLING: c_ulong = 0x00000004;

pub const I2C_FUNC_SMBUS_PEC: c_ulong = 0x00000008;

pub const I2C_FUNC_SMBUS_BLOCK_PROC_CALL: c_ulong = 0x00008000;

pub const I2C_FUNC_SMBUS_QUICK: c_ulong = 0x00010000;

pub const I2C_FUNC_SMBUS_READ_BYTE: c_ulong = 0x00020000;

pub const I2C_FUNC_SMBUS_WRITE_BYTE: c_ulong = 0x00040000;

pub const I2C_FUNC_SMBUS_READ_BYTE_DATA: c_ulong = 0x00080000;

pub const I2C_FUNC_SMBUS_WRITE_BYTE_DATA: c_ulong = 0x00100000;

pub const I2C_FUNC_SMBUS_READ_WORD_DATA: c_ulong = 0x00200000;

pub const I2C_FUNC_SMBUS_WRITE_WORD_DATA: c_ulong = 0x00400000;

pub const I2C_FUNC_SMBUS_PROC_CALL: c_ulong = 0x00800000;

pub const I2C_FUNC_SMBUS_READ_BLOCK_DATA: c_ulong = 0x01000000;

pub const I2C_FUNC_SMBUS_WRITE_BLOCK_DATA: c_ulong = 0x02000000;

pub const I2C_FUNC_SMBUS_READ_BLOCK: c_ulong = 0x04000000;

pub const I2C_FUNC_SMBUS_WRITE_BLOCK: c_ulong = 0x08000000;

/// The set of transaction types an adapter supports, one bit each.
#[derive(Debug, Copy, Clone, Eq, PartialEq, Structural)]
pub struct Functionality(pub c_ulong);

/// Appends `name` to `text` when `present` holds, and nothing otherwise.
fn push_label(text: &mut String, present: bool, name: &str)
    ensures
        final(text)@ == old(text)@ + label(present, name@),
{
    if present {
        text.append(name);
    } else {
        assert(text@ =~= text@ + Seq::<char>::empty());
    }
}

/// The text that one bit contributes to the listing of a bitmask.
pub open spec fn label(present: bool, name: Seq<char>) -> Seq<char> {
    if present {
        name
    } else {
        Seq::empty()
    }
}

impl Functionality {
    /// Whether any bit of `bits` is set in this mask.
    pub open spec fn has(self, bits: c_ulong) -> bool {
        self.0 & bits != 0
    }

    /// The bits of `mask` that this mask lacks.
    pub open spec fn missing(self, mask: c_ulong) -> c_ulong {
        !self.0 & mask
    }

    /// The listing of the supported transaction types: a bar, then for each
    /// bit that is set, in the order of the bits, its name between spaces and
    /// a closing bar.
    pub open spec fn text(self) -> Seq<char> {
        "|"@ + label(self.has(I2C_FUNC_I2C), " I2C |"@) + label(
            self.has(I2C_FUNC_10BIT_ADDR),
            " 10 BIT ADDR |"@,
        ) + label(self.has(I2C_FUNC_PROTOCOL_MANGLING), " PROTOCOL MANGLING |"@) + label(
            self.has(I2C_FUNC_SMBUS_PEC),
            " SMBUS PEC |"@,
        ) + label(self.has(I2C_FUNC_SMBUS_BLOCK_PROC_CALL), " SMBUS BLOCK PROC CALL |"@) + label(
            self.has(I2C_FUNC_SMBUS_QUICK),
            " SMBUS QUICK |"@,
        ) + label(self.has(I2C_FUNC_SMBUS_READ_BYTE), " SMBUS READ BYTE |"@) + label(
            self.has(I2C_FUNC_SMBUS_WRITE_BYTE),
            " SMBUS WRITE BYTE |"@,
        ) + label(self.has(I2C_FUNC_SMBUS_READ_BYTE_DATA), " SMBUS READ BYTE DATA |"@) + label(
            self.has(I2C_FUNC_SMBUS_WRITE_BYTE_DATA),
            " SMBUS WRITE BYTE DATA |"@,
        ) + label(self.has(I2C_FUNC_SMBUS_READ_WORD_DATA), " SMBUS READ WORD DATA |"@) + label(
            self.has(I2C_FUNC_SMBUS_WRITE_WORD_DATA),
            " SMBUS WRITE WORD DATA |"@,
        ) + label(self.has(I2C_FUNC_SMBUS_PROC_CALL), " SMBUS PROC CALL |"@) + label(
            self.has(I2C_FUNC_SMBUS_READ_BLOCK_DATA),
            " SMBUS READ BLOCK DATA |"@,
        ) + label(self.has(I2C_FUNC_SMBUS_WRITE_BLOCK_DATA), " SMBUS WRITE BLOCK DATA |"@) + label(
            self.has(I2C_FUNC_SMBUS_READ_BLOCK),
            " SMBUS READ BLOCK |"@,
        ) + label(self.has(I2C_FUNC_SMBUS_WRITE_BLOCK), " SMBUS WRITE BLOCK |"@)
    }

    /// The set with the bits of `func`.
    pub fn new(func: c_ulong) -> (r: Self)
        ensures
            r == Functionality(func),
    {
        Functionality(func)
    }

    pub fn i2c(&self) -> (r: bool)
        ensures
            r == self.has(I2C_FUNC_I2C),
    {
        (self.0 & I2C_FUNC_I2C) > 0
    }

    pub fn _10_bit_addr(&self) -> (r: bool)
        ensures
            r == self.has(I2C_FUNC_10BIT_ADDR),
    {
        (self.0 & I2C_FUNC_10BIT_ADDR) > 0
    }

    pub fn protocol_mangling(&self) -> (r: bool)
        ensures
            r == self.has(I2C_FUNC_PROTOCOL_MANGLING),
    {
        (self.0 & I2C_FUNC_PROTOCOL_MANGLING) > 0
    }

    pub fn smbus_pec(&self) -> (r: bool)
        ensures
            r == self.has(I2C_FUNC_SMBUS_PEC),
    {
        (self.0 & I2C_FUNC_SMBUS_PEC) > 0
    }

    pub fn smbus_block_proc_call(&self) -> (r: bool)
        ensures
            r == self.has(I2C_FUNC_SMBUS_BLOCK_PROC_CALL),
    {
        (self.0 & I2C_FUNC_SMBUS_BLOCK_PROC_CALL) > 0
    }

    pub fn smbus_quick(&self) -> (r: bool)
        ensures
            r == self.has(I2C_FUNC_SMBUS_QUICK),
    {
        (self.0 & I2C_FUNC_SMBUS_QUICK) > 0
    }

    pub fn smbus_read_byte(&self) -> (r: bool)
        ensures
            r == self.has(I2C_FUNC_SMBUS_READ_BYTE),
    {
        (self.0 & I2C_FUNC_SMBUS_READ_BYTE) > 0
    }

    pub fn smbus_write_byte(&self) -> (r: bool)
        ensures
            r == self.has(I2C_FUNC_SMBUS_WRITE_BYTE),
    {
        (self.0 & I2C_FUNC_SMBUS_WRITE_BYTE) > 0
    }

    pub fn smbus_read_byte_data(&self) -> (r: bool)
        ensures
            r == self.has(I2C_FUNC_SMBUS_READ_BYTE_DATA),
    {
        (self.0 & I2C_FUNC_SMBUS_READ_BYTE_DATA) > 0
    }

    pub fn smbus_write_byte_data(&self) -> (r: bool)
        ensures
            r == self.has(I2C_FUNC_SMBUS_WRITE_BYTE_DATA),
    {
        (self.0 & I2C_FUNC_SMBUS_WRITE_BYTE_DATA) > 0
    }

    pub fn smbus_read_word_data(&self) -> (r: bool)
        ensures
            r == self.has(I2C_FUNC_SMBUS_READ_WORD_DATA),
    {
        (self.0 & I2C_FUNC_SMBUS_READ_WORD_DATA) > 0
    }

    pub fn smbus_write_word_data(&self) -> (r: bool)
        ensures
            r == self.has(I2C_FUNC_SMBUS_WRITE_WORD_DATA),
    {
        (self.0 & I2C_FUNC_SMBUS_WRITE_WORD_DATA) > 0
    }

    pub fn smbus_proc_call(&self) -> (r: bool)
        ensures
            r == self.has(I2C_FUNC_SMBUS_PROC_CALL),
    {
        (self.0 & I2C_FUNC_SMBUS_PROC_CALL) > 0
    }

    pub fn smbus_read_block_data(&self) -> (r: bool)
        ensures
            r == self.has(I2C_FUNC_SMBUS_READ_BLOCK_DATA),
    {
        (self.0 & I2C_FUNC_SMBUS_READ_BLOCK_DATA) > 0
    }

    pub fn smbus_write_block_data(&self) -> (r: bool)
        ensures
            r == self.has(I2C_FUNC_SMBUS_WRITE_BLOCK_DATA),
    {
        (self.0 & I2C_FUNC_SMBUS_WRITE_BLOCK_DATA) > 0
    }

    pub fn smbus_read_block(&self) -> (r: bool)
        ensures
            r == self.has(I2C_FUNC_SMBUS_READ_BLOCK),
    {
        (self.0 & I2C_FUNC_SMBUS_READ_BLOCK) > 0
    }

    pub fn smbus_write_block(&self) -> (r: bool)
        ensures
            r == self.has(I2C_FUNC_SMBUS_WRITE_BLOCK),
    {
        (self.0 & I2C_FUNC_SMBUS_WRITE_BLOCK) > 0
    }

    /// Tests that every bit of `mask` is supported. Where some are not, the
    /// error holds exactly those bits of `mask` that are unset here.
    pub fn require(&self, mask: c_ulong) -> (r: Result<(), Functionality>)
        ensures
            r is Ok <==> self.0 & mask == mask,
            r matches Err(lack) ==> lack == Functionality(self.missing(mask)) && lack.0 != 0,
    {
        let have: c_ulong = self.0;
        assert((!have & mask == 0) <==> (have & mask == mask)) by (bit_vector);
        let lack: c_ulong = !have & mask;
        if lack == 0 {
            Ok(())
        } else {
            Err(Functionality(lack))
        }
    }

    /// Lists the supported transaction types by name.
    pub fn to_string(&self) -> (s: String)
        ensures
            s@ == self.text(),
    {
        let mut s = String::from_str("|");
        push_label(&mut s, self.i2c(), " I2C |");
        push_label(&mut s, self._10_bit_addr(), " 10 BIT ADDR |");
        push_label(&mut s, self.protocol_mangling(), " PROTOCOL MANGLING |");
        push_label(&mut s, self.smbus_pec(), " SMBUS PEC |");
        push_label(&mut s, self.smbus_block_proc_call(), " SMBUS BLOCK PROC CALL |");
        push_label(&mut s, self.smbus_quick(), " SMBUS QUICK |");
        push_label(&mut s, self.smbus_read_byte(), " SMBUS READ BYTE |");
        push_label(&mut s, self.smbus_write_byte(), " SMBUS WRITE BYTE |");
        push_label(&mut s, self.smbus_read_byte_data(), " SMBUS READ BYTE DATA |");
        push_label(&mut s, self.smbus_write_byte_data(), " SMBUS WRITE BYTE DATA |");
        push_label(&mut s, self.smbus_read_word_data(), " SMBUS READ WORD DATA |");
        push_label(&mut s, self.smbus_write_word_data(), " SMBUS WRITE WORD DATA |");
        push_label(&mut s, self.smbus_proc_call(), " SMBUS PROC CALL |");
        push_label(&mut s, self.smbus_read_block_data(), " SMBUS READ BLOCK DATA |");
        push_label(&mut s, self.smbus_write_block_data(), " SMBUS WRITE BLOCK DATA |");
        push_label(&mut s, self.smbus_read_block(), " SMBUS READ BLOCK |");
        push_label(&mut s, self.smbus_write_block(), " SMBUS WRITE BLOCK |");
        s
    }
}

/// The bits that `require` reports are bits of the mask asked for, and none
/// of them is supported.
pub proof fn lemma_missing_bits(func: Functionality, mask: c_ulong)
    ensures
        func.missing(mask) & mask == func.missing(mask),
        func.missing(mask) & func.0 == 0,
        func.missing(mask) | (func.0 & mask) == mask,
{
    let have: c_ulong = func.0;
    assert((!have & mask) & mask == (!have & mask)) by (bit_vector);
    assert((!have & mask) & have == 0) by (bit_vector);
    assert((!have & mask) | (have & mask) == mask) by (bit_vector);
}

} // verus!
