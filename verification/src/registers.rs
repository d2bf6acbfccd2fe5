//! Register map of the ICM-20948 as the driver uses it, and the settings
//! that the driver keeps about the chip.
use vstd::prelude::*;

verus! {

/// Passed to `get_addr` to build the address byte of a read.
pub const READ_REG: bool = true;

/// Passed to `get_addr` to build the address byte of a write.
pub const WRITE_REG: bool = false;

/// Value of the interrupt flag while the data ready interrupt is on.
pub const INT_ENABLED: bool = true;

/// Value of the interrupt flag while the data ready interrupt is off.
pub const INT_NOT_ENABLED: bool = false;

/// `REG_BANK_SEL` value that selects user bank 0.
pub const REG_BANK_0: u8 = 0x00;

/// `REG_BANK_SEL` value that selects user bank 2.
pub const REG_BANK_2: u8 = 0x20;

/// Accelerometer counts per g at +-2g.
pub const ACCEL_SEN_0: u16 = 16384;

/// Accelerometer counts per g at +-4g.
pub const ACCEL_SEN_1: u16 = 8192;

/// Accelerometer counts per g at +-8g.
pub const ACCEL_SEN_2: u16 = 4096;

/// Accelerometer counts per g at +-16g.
pub const ACCEL_SEN_3: u16 = 2048;

/// The bit of the address byte that marks an SPI read.
pub const READ_BIT: u8 = 0x80;

/// The address byte for register `addr`: the read bit is set for a read
/// and clear for a write.
pub open spec fn spec_addr_byte(addr: u8, rw: bool) -> u8 {
    if rw {
        addr | READ_BIT
    } else {
        addr
    }
}

fn addr_byte(addr: u8, rw: bool) -> (r: u8)
    ensures
        r == spec_addr_byte(addr, rw),
{
    if rw {
        addr | READ_BIT
    } else {
        addr
    }
}

/// Registers of user bank 0 that the driver touches.
#[derive(Clone, Copy, Debug, PartialEq, Eq, Structural)]
pub enum RegistersBank0 {
    Wai,
    PwrMgmt1,
    PwrMgmt2,
    IntEnable1,
    AccelXOutH,
    AccelXOutL,
    AccelYOutH,
    AccelYOutL,
    AccelZOutH,
    AccelZOutL,
    GyroXOutH,
    GyroXOutL,
    GyroYOutH,
    GyroYOutL,
    GyroZOutH,
    GyroZOutL,
    RegBankSel,
}

/// Registers of user bank 2 that the driver touches.
#[derive(Clone, Copy, Debug, PartialEq, Eq, Structural)]
pub enum RegistersBank2 {
    GyroSmplrtDiv,
    GyroConfig1,
    OdrAlignEn,
    AccelSmplrtDiv1,
    AccelSmplrtDiv2,
    AccelConfig,
}

impl RegistersBank0 {
    /// Address of the register in bank 0, as the data sheet gives it.
    pub open spec fn spec_addr(self) -> u8 {
        match self {
            RegistersBank0::Wai => 0x00,
            RegistersBank0::PwrMgmt1 => 0x06,
            RegistersBank0::PwrMgmt2 => 0x07,
            RegistersBank0::IntEnable1 => 0x11,
            RegistersBank0::AccelXOutH => 0x2D,
            RegistersBank0::AccelXOutL => 0x2E,
            RegistersBank0::AccelYOutH => 0x2F,
            RegistersBank0::AccelYOutL => 0x30,
            RegistersBank0::AccelZOutH => 0x31,
            RegistersBank0::AccelZOutL => 0x32,
            RegistersBank0::GyroXOutH => 0x33,
            RegistersBank0::GyroXOutL => 0x34,
            RegistersBank0::GyroYOutH => 0x35,
            RegistersBank0::GyroYOutL => 0x36,
            RegistersBank0::GyroZOutH => 0x37,
            RegistersBank0::GyroZOutL => 0x38,
            RegistersBank0::RegBankSel => 0x7F,
        }
    }

    /// Address of the register in bank 0.
    pub fn addr(&self) -> (r: u8)
        ensures
            r == self.spec_addr(),
    {
        match self {
            RegistersBank0::Wai => 0x00,
            RegistersBank0::PwrMgmt1 => 0x06,
            RegistersBank0::PwrMgmt2 => 0x07,
            RegistersBank0::IntEnable1 => 0x11,
            RegistersBank0::AccelXOutH => 0x2D,
            RegistersBank0::AccelXOutL => 0x2E,
            RegistersBank0::AccelYOutH => 0x2F,
            RegistersBank0::AccelYOutL => 0x30,
            RegistersBank0::AccelZOutH => 0x31,
            RegistersBank0::AccelZOutL => 0x32,
            RegistersBank0::GyroXOutH => 0x33,
            RegistersBank0::GyroXOutL => 0x34,
            RegistersBank0::GyroYOutH => 0x35,
            RegistersBank0::GyroYOutL => 0x36,
            RegistersBank0::GyroZOutH => 0x37,
            RegistersBank0::GyroZOutL => 0x38,
            RegistersBank0::RegBankSel => 0x7F,
        }
    }

    /// The first byte of an SPI frame that reads (`rw == READ_REG`) or
    /// writes (`rw == WRITE_REG`) this register.
    pub open spec fn spec_get_addr(self, rw: bool) -> u8 {
        spec_addr_byte(self.spec_addr(), rw)
    }

    /// The first byte of an SPI frame that reads (`rw == READ_REG`) or
    /// writes (`rw == WRITE_REG`) this register.
    pub fn get_addr(&self, rw: bool) -> (r: u8)
        ensures
            r == self.spec_get_addr(rw),
    {
        addr_byte(self.addr(), rw)
    }
}

impl RegistersBank2 {
    /// Address of the register in bank 2, as the data sheet gives it.
    pub open spec fn spec_addr(self) -> u8 {
        match self {
            RegistersBank2::GyroSmplrtDiv => 0x00,
            RegistersBank2::GyroConfig1 => 0x01,
            RegistersBank2::OdrAlignEn => 0x09,
            RegistersBank2::AccelSmplrtDiv1 => 0x10,
            RegistersBank2::AccelSmplrtDiv2 => 0x11,
            RegistersBank2::AccelConfig => 0x14,
        }
    }

    /// Address of the register in bank 2.
    pub fn addr(&self) -> (r: u8)
        ensures
            r == self.spec_addr(),
    {
        match self {
            RegistersBank2::GyroSmplrtDiv => 0x00,
            RegistersBank2::GyroConfig1 => 0x01,
            RegistersBank2::OdrAlignEn => 0x09,
            RegistersBank2::AccelSmplrtDiv1 => 0x10,
            RegistersBank2::AccelSmplrtDiv2 => 0x11,
            RegistersBank2::AccelConfig => 0x14,
        }
    }

    /// The first byte of an SPI frame that reads or writes this register.
    pub open spec fn spec_get_addr(self, rw: bool) -> u8 {
        spec_addr_byte(self.spec_addr(), rw)
    }

    /// The first byte of an SPI frame that reads or writes this register.
    pub fn get_addr(&self, rw: bool) -> (r: u8)
        ensures
            r == self.spec_get_addr(rw),
    {
        addr_byte(self.addr(), rw)
    }
}

/// Whether the driver has switched the accelerometer on.
#[derive(Clone, Copy, Debug, PartialEq, Eq, Structural)]
pub enum AccStates {
    AccOn,
    AccOff,
}

/// Whether the driver has switched the gyro on.
#[derive(Clone, Copy, Debug, PartialEq, Eq, Structural)]
pub enum GyroStates {
    GyroOn,
    GyroOff,
}

/// Whether the magnetometer is on (the driver never switches it on).
#[derive(Clone, Copy, Debug, PartialEq, Eq, Structural)]
pub enum MagStates {
    MagOn,
    MagOff,
}

/// Full scale range of the accelerometer.
#[derive(Clone, Copy, Debug, PartialEq, Eq, Structural)]
pub enum AccSensitivity {
    Sen2g,
    Sen4g,
    Sen8g,
    Sen16g,
}

/// Full scale range of the gyro.
#[derive(Clone, Copy, Debug, PartialEq, Eq, Structural)]
pub enum GyroSensitivity {
    Sen250dps,
    Sen500dps,
    Sen1000dps,
    Sen2000dps,
}

/// 3dB bandwidth of the accelerometer's low pass filter.
#[derive(Clone, Copy, Debug, PartialEq, Eq, Structural)]
pub enum AccLPF {
    BW6,
    BW11,
    BW24,
    BW50,
    BW111,
    BW246,
    Bw473,
}

/// 3dB bandwidth of the gyro's low pass filter.
#[derive(Clone, Copy, Debug, PartialEq, Eq, Structural)]
pub enum GyroLPF {
    BW6,
    BW12,
    BW24,
    BW51,
    BW119,
    BW152,
    BW197,
    BW361,
}

impl AccSensitivity {
    /// The `ACCEL_FS_SEL` field value (bits 2:1 of `ACCEL_CONFIG`).
    pub open spec fn spec_code(self) -> u8 {
        match self {
            AccSensitivity::Sen2g => 0,
            AccSensitivity::Sen4g => 1,
            AccSensitivity::Sen8g => 2,
            AccSensitivity::Sen16g => 3,
        }
    }

    /// Counts per g of the accelerometer at this range.
    pub open spec fn spec_counts(self) -> u16 {
        match self {
            AccSensitivity::Sen2g => ACCEL_SEN_0,
            AccSensitivity::Sen4g => ACCEL_SEN_1,
            AccSensitivity::Sen8g => ACCEL_SEN_2,
            AccSensitivity::Sen16g => ACCEL_SEN_3,
        }
    }
}

impl GyroSensitivity {
    /// The `GYRO_FS_SEL` field value (bits 2:1 of `GYRO_CONFIG_1`).
    pub open spec fn spec_code(self) -> u8 {
        match self {
            GyroSensitivity::Sen250dps => 0,
            GyroSensitivity::Sen500dps => 1,
            GyroSensitivity::Sen1000dps => 2,
            GyroSensitivity::Sen2000dps => 3,
        }
    }
}

impl AccLPF {
    /// The `ACCEL_DLPFCFG` field value (bits 5:3 of `ACCEL_CONFIG`).
    pub open spec fn spec_code(self) -> u8 {
        match self {
            AccLPF::BW6 => 6,
            AccLPF::BW11 => 5,
            AccLPF::BW24 => 4,
            AccLPF::BW50 => 3,
            AccLPF::BW111 => 2,
            AccLPF::BW246 => 0,
            AccLPF::Bw473 => 7,
        }
    }

    /// The `ACCEL_DLPFCFG` field value for this bandwidth.
    pub fn code(&self) -> (r: u8)
        ensures
            r == self.spec_code(),
    {
        match self {
            AccLPF::BW6 => 6,
            AccLPF::BW11 => 5,
            AccLPF::BW24 => 4,
            AccLPF::BW50 => 3,
            AccLPF::BW111 => 2,
            AccLPF::BW246 => 0,
            AccLPF::Bw473 => 7,
        }
    }
}

impl GyroLPF {
    /// The `GYRO_DLPFCFG` field value (bits 5:3 of `GYRO_CONFIG_1`).
    pub open spec fn spec_code(self) -> u8 {
        match self {
            GyroLPF::BW6 => 6,
            GyroLPF::BW12 => 5,
            GyroLPF::BW24 => 4,
            GyroLPF::BW51 => 3,
            GyroLPF::BW119 => 2,
            GyroLPF::BW152 => 1,
            GyroLPF::BW197 => 0,
            GyroLPF::BW361 => 7,
        }
    }

    /// The `GYRO_DLPFCFG` field value for this bandwidth.
    pub fn code(&self) -> (r: u8)
        ensures
            r == self.spec_code(),
    {
        match self {
            GyroLPF::BW6 => 6,
            GyroLPF::BW12 => 5,
            GyroLPF::BW24 => 4,
            GyroLPF::BW51 => 3,
            GyroLPF::BW119 => 2,
            GyroLPF::BW152 => 1,
            GyroLPF::BW197 => 0,
            GyroLPF::BW361 => 7,
        }
    }
}

/// What can go wrong in a driver operation.
#[derive(Clone, Copy, Debug, PartialEq, Eq, Structural)]
pub enum IcmError {
    /// The SPI bus reported an error during a transfer.
    BusError,
    /// An argument was out of the range that the operation accepts.
    InvalidInput,
}

} // verus!
