use i2c_master::func::{
    I2C_FUNC_10BIT_ADDR, I2C_FUNC_I2C, I2C_FUNC_PROTOCOL_MANGLING, I2C_FUNC_SMBUS_BLOCK_PROC_CALL,
    I2C_FUNC_SMBUS_PEC, I2C_FUNC_SMBUS_PROC_CALL, I2C_FUNC_SMBUS_QUICK,
    I2C_FUNC_SMBUS_READ_BLOCK, I2C_FUNC_SMBUS_READ_BLOCK_DATA, I2C_FUNC_SMBUS_READ_BYTE,
    I2C_FUNC_SMBUS_READ_BYTE_DATA, I2C_FUNC_SMBUS_READ_WORD_DATA, I2C_FUNC_SMBUS_WRITE_BLOCK,
    I2C_FUNC_SMBUS_WRITE_BLOCK_DATA, I2C_FUNC_SMBUS_WRITE_BYTE, I2C_FUNC_SMBUS_WRITE_BYTE_DATA,
    I2C_FUNC_SMBUS_WRITE_WORD_DATA,
};
use i2c_master::{
    get_err, Functionality, I2c, I2cError, I2cOperation, IoctlError, I2C_FUNCS, I2C_RDWR,
};

#[test]
fn capability_bits() {
    assert_eq!(I2C_FUNC_I2C, 0x0000_0001);
    assert_eq!(I2C_FUNC_10BIT_ADDR, 0x0000_0002);
    assert_eq!(I2C_FUNC_PROTOCOL_MANGLING, 0x0000_0004);
    assert_eq!(I2C_FUNC_SMBUS_PEC, 0x0000_0008);
    assert_eq!(I2C_FUNC_SMBUS_BLOCK_PROC_CALL, 0x0000_8000);
    assert_eq!(I2C_FUNC_SMBUS_QUICK, 0x0001_0000);
    assert_eq!(I2C_FUNC_SMBUS_READ_BYTE, 0x0002_0000);
    assert_eq!(I2C_FUNC_SMBUS_WRITE_BYTE, 0x0004_0000);
    assert_eq!(I2C_FUNC_SMBUS_READ_BYTE_DATA, 0x0008_0000);
    assert_eq!(I2C_FUNC_SMBUS_WRITE_BYTE_DATA, 0x0010_0000);
    assert_eq!(I2C_FUNC_SMBUS_READ_WORD_DATA, 0x0020_0000);
    assert_eq!(I2C_FUNC_SMBUS_WRITE_WORD_DATA, 0x0040_0000);
    assert_eq!(I2C_FUNC_SMBUS_PROC_CALL, 0x0080_0000);
    assert_eq!(I2C_FUNC_SMBUS_READ_BLOCK_DATA, 0x0100_0000);
    assert_eq!(I2C_FUNC_SMBUS_WRITE_BLOCK_DATA, 0x0200_0000);
    assert_eq!(I2C_FUNC_SMBUS_READ_BLOCK, 0x0400_0000);
    assert_eq!(I2C_FUNC_SMBUS_WRITE_BLOCK, 0x0800_0000);
}

#[test]
fn request_codes() {
    assert_eq!(I2C_FUNCS, 0x0705);
    assert_eq!(I2C_RDWR, 0x0707);
}

#[test]
fn each_predicate_reads_its_own_bit() {
    let checks: Vec<(u64, fn(&Functionality) -> bool)> = vec![
        (0x0000_0001, Functionality::i2c),
        (0x0000_0002, Functionality::_10_bit_addr),
        (0x0000_0004, Functionality::protocol_mangling),
        (0x0000_0008, Functionality::smbus_pec),
        (0x0000_8000, Functionality::smbus_block_proc_call),
        (0x0001_0000, Functionality::smbus_quick),
        (0x0002_0000, Functionality::smbus_read_byte),
        (0x0004_0000, Functionality::smbus_write_byte),
        (0x0008_0000, Functionality::smbus_read_byte_data),
        (0x0010_0000, Functionality::smbus_write_byte_data),
        (0x0020_0000, Functionality::smbus_read_word_data),
        (0x0040_0000, Functionality::smbus_write_word_data),
        (0x0080_0000, Functionality::smbus_proc_call),
        (0x0100_0000, Functionality::smbus_read_block_data),
        (0x0200_0000, Functionality::smbus_write_block_data),
        (0x0400_0000, Functionality::smbus_read_block),
        (0x0800_0000, Functionality::smbus_write_block),
    ];
    for (i, (bit, _)) in checks.iter().enumerate() {
        let only = Functionality::new(*bit as _);
        let all_but = Functionality::new(!*bit as _);
        for (k, (_, predicate)) in checks.iter().enumerate() {
            assert_eq!(predicate(&only), i == k);
            assert_eq!(predicate(&all_but), i != k);
        }
    }
    let none = Functionality::new(0);
    for (_, predicate) in checks.iter() {
        assert!(!predicate(&none));
    }
}

#[test]
fn require_reports_the_missing_bits() {
    let func = Functionality::new(0b10110);
    assert_eq!(func.require(0b00100), Ok(()));
    assert_eq!(func.require(0b10110), Ok(()));
    assert_eq!(func.require(0), Ok(()));
    assert_eq!(func.require(0b11001), Err(Functionality::new(0b01001)));
    assert_eq!(func.require(0b00001), Err(Functionality::new(0b00001)));
    assert_eq!(Functionality::new(0).require(0xFF), Err(Functionality::new(0xFF)));
}

#[test]
fn missing_bits_lie_in_the_mask_and_outside_the_set() {
    let sets = [0u64, 1, 0b10110, 0x0EFF_800F, u32::MAX as u64];
    let masks = [0u64, 1, 0b11001, 0x0800_0001, 0xFFFF];
    for set in sets {
        for mask in masks {
            match Functionality::new(set as _).require(mask as _) {
                Ok(()) => assert_eq!(set & mask, mask),
                Err(lack) => {
                    let lack = lack.0 as u64;
                    assert_ne!(lack, 0);
                    assert_eq!(lack & mask, lack);
                    assert_eq!(lack & set, 0);
                    assert_eq!(lack | (set & mask), mask);
                }
            }
        }
    }
}

#[test]
fn listing_of_no_capability() {
    assert_eq!(Functionality::new(0).to_string(), "|");
}

#[test]
fn listing_of_some_capabilities() {
    assert_eq!(Functionality::new(0b11).to_string(), "| I2C | 10 BIT ADDR |");
    assert_eq!(
        Functionality::new(0x0001_0008).to_string(),
        "| SMBUS PEC | SMBUS QUICK |"
    );
}

#[test]
fn listing_of_every_capability() {
    assert_eq!(
        Functionality::new(0x0FFF_800F).to_string(),
        "| I2C | 10 BIT ADDR | PROTOCOL MANGLING | SMBUS PEC | SMBUS BLOCK PROC CALL \
         | SMBUS QUICK | SMBUS READ BYTE | SMBUS WRITE BYTE | SMBUS READ BYTE DATA \
         | SMBUS WRITE BYTE DATA | SMBUS READ WORD DATA | SMBUS WRITE WORD DATA \
         | SMBUS PROC CALL | SMBUS READ BLOCK DATA | SMBUS WRITE BLOCK DATA \
         | SMBUS READ BLOCK | SMBUS WRITE BLOCK |"
    );
}

#[test]
fn seven_bit_range_without_ten_bit_addressing() {
    let func = Functionality::new(0x1);
    assert!(I2c::open(0x00, func).is_ok());
    assert!(I2c::open(0x7F, func).is_ok());
    assert!(matches!(I2c::open(0x80, func), Err(I2cError::AddressError)));
    assert!(matches!(I2c::open(0x3FF, func), Err(I2cError::AddressError)));
    assert!(matches!(I2c::open(0xFFFF, func), Err(I2cError::AddressError)));
    for addr in 0x80..=0xFFFFu16 {
        assert!(matches!(I2c::validate(addr, &func), Err(I2cError::AddressError)));
    }
    for addr in 0..=0x7Fu16 {
        assert!(I2c::validate(addr, &func).is_ok());
    }
}

#[test]
fn ten_bit_range_with_ten_bit_addressing() {
    let func = Functionality::new(0x3);
    assert!(I2c::open(0x00, func).is_ok());
    assert!(I2c::open(0x80, func).is_ok());
    assert!(I2c::open(0x3FF, func).is_ok());
    assert!(matches!(I2c::open(0x3FF + 1, func), Err(I2cError::AddressError)));
    assert!(matches!(I2c::open(0xFFFF, func), Err(I2cError::AddressError)));
    for addr in 0..=0x3FFu16 {
        assert!(I2c::validate(addr, &func).is_ok());
    }
    for addr in 0x400..=0xFFFFu16 {
        assert!(matches!(I2c::validate(addr, &func), Err(I2cError::AddressError)));
    }
}

#[test]
fn handle_keeps_address_and_functionality() {
    let handle = I2c::open(0x76, Functionality::new(0b10110)).unwrap();
    assert_eq!(handle.address(), 0x76);
    assert_eq!(*handle.functionality(), Functionality::new(0b10110));
}

#[test]
fn get_err_passes_a_count_through() {
    assert_eq!(get_err(0).unwrap(), 0);
    assert_eq!(get_err(2).unwrap(), 2);
    assert_eq!(get_err(i32::MAX).unwrap(), i32::MAX);
}

#[test]
fn get_err_fails_below_zero() {
    assert!(get_err(-1).is_err());
    assert!(get_err(i32::MIN).is_err());
}

#[test]
fn get_func_wraps_the_mask() {
    assert_eq!(I2c::get_func(0, 0b10110).unwrap(), Functionality::new(0b10110));
    assert_eq!(I2c::get_func(7, 0).unwrap(), Functionality::new(0));
    assert!(matches!(I2c::get_func(-1, 0b10110), Err(IoctlError::IoctlError(_))));
}

#[test]
fn messages_of_the_errors() {
    let os = || std::io::Error::from_raw_os_error(121);
    assert_eq!(I2cError::FileError(os()).to_string(), "failed to open i2c device");
    assert_eq!(
        I2cError::ReadError(IoctlError::IoctlError(os())).to_string(),
        "failed on i2c read request"
    );
    assert_eq!(
        I2cError::WriteError(IoctlError::IoctlError(os())).to_string(),
        "failed on i2c write request"
    );
    assert_eq!(
        I2cError::BufferError(IoctlError::IoctlError(os())).to_string(),
        "failed on i2c buffer execute"
    );
    assert_eq!(
        I2cError::AddressError.to_string(),
        "address too long for supported address range"
    );
    assert_eq!(
        I2cError::IoctlError(IoctlError::FunctionalityError(Functionality::new(1))).to_string(),
        "missing functionality required for ioctl call"
    );
    assert_eq!(I2cError::IoctlError(IoctlError::IoctlError(os())).to_string(), os().to_string());
    assert_eq!(IoctlError::IoctlError(os()).to_string(), os().to_string());
    assert_eq!(
        IoctlError::FunctionalityError(Functionality::new(1)).to_string(),
        "missing functionality required for ioctl call"
    );
}

#[test]
fn conversions_of_the_errors() {
    assert!(matches!(
        IoctlError::from(Functionality::new(5)),
        IoctlError::FunctionalityError(f) if f == Functionality::new(5)
    ));
    assert!(matches!(
        IoctlError::from(std::io::Error::from_raw_os_error(13)),
        IoctlError::IoctlError(ref e) if e.raw_os_error() == Some(13)
    ));
    assert!(matches!(
        I2cError::from(IoctlError::FunctionalityError(Functionality::new(5))),
        I2cError::IoctlError(IoctlError::FunctionalityError(f)) if f == Functionality::new(5)
    ));
}

#[test]
fn operations_tag_their_failures() {
    let cause = || IoctlError::FunctionalityError(Functionality::new(1));
    assert!(matches!(I2cOperation::Read.wrap(cause()), I2cError::ReadError(_)));
    assert!(matches!(I2cOperation::Write.wrap(cause()), I2cError::WriteError(_)));
    assert!(matches!(I2cOperation::Buffer.wrap(cause()), I2cError::BufferError(_)));
}

#[test]
fn only_tagged_failures_hold_a_request_failure() {
    let cause = || IoctlError::FunctionalityError(Functionality::new(1));
    assert!(I2cError::ReadError(cause()).ioctl_error().is_some());
    assert!(I2cError::WriteError(cause()).ioctl_error().is_some());
    assert!(I2cError::BufferError(cause()).ioctl_error().is_some());
    assert!(I2cError::IoctlError(cause()).ioctl_error().is_none());
    assert!(I2cError::AddressError.ioctl_error().is_none());
    assert!(I2cError::FileError(std::io::Error::from_raw_os_error(2)).ioctl_error().is_none());
}
