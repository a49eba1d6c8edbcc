use crate::databus::{valid_ram_banks, valid_rom_banks, MbcKind};
use vstd::prelude::*;

verus! {

/// Offset of the cartridge type in an image.
pub const TYPE_OFFSET: usize = 0x0147;

/// Offset of the ROM size code in an image.
pub const ROM_SIZE_OFFSET: usize = 0x0148;

/// Offset of the RAM size code in an image.
pub const RAM_SIZE_OFFSET: usize = 0x0149;

/// Why a cartridge image cannot be run.
#[derive(Clone, Copy, PartialEq, Eq, Structural, Debug)]
pub enum CartridgeError {
    /// The image ends before its header does.
    Truncated,
    /// The cartridge type names a controller that is not supported.
    UnsupportedController,
    /// The ROM size code is above 8.
    UnsupportedRomSize,
    /// The RAM size code is above 5.
    UnsupportedRamSize,
}

/// What the header of a cartridge image declares.
#[derive(Clone, Copy, PartialEq, Eq, Structural, Debug)]
pub struct CartridgeHeader {
    pub kind: MbcKind,
    pub rom_banks: u32,
    pub ram_banks: u8,
}

/// The controller that a cartridge type byte names.
pub open spec fn controller_of(code: u8) -> Option<MbcKind> {
    if code == 0x00 {
        Some(MbcKind::RomOnly)
    } else if 0x01 <= code <= 0x03 {
        Some(MbcKind::Mbc1)
    } else if 0x05 <= code <= 0x06 {
        Some(MbcKind::Mbc2)
    } else if 0x08 <= code <= 0x0D {
        Some(MbcKind::RomOnly)
    } else {
        None
    }
}

/// Two to the power `exponent`.
pub open spec fn power_of_two(exponent: nat) -> nat
    decreases exponent,
{
    if exponent == 0 {
        1
    } else {
        2 * power_of_two((exponent - 1) as nat)
    }
}

/// The number of 16 KiB ROM banks that a size code names: `2^(code + 1)`
/// for a code up to 8.
pub open spec fn rom_banks_of(code: u8) -> Option<u32> {
    if code <= 8 {
        Some(power_of_two((code + 1) as nat) as u32)
    } else {
        None
    }
}

/// The number of 8 KiB RAM banks that a size code names.
pub open spec fn ram_banks_of(code: u8) -> Option<u8> {
    if code <= 1 {
        Some(0u8)
    } else if code == 2 {
        Some(1u8)
    } else if code == 3 {
        Some(4u8)
    } else if code == 4 {
        Some(16u8)
    } else if code == 5 {
        Some(8u8)
    } else {
        None
    }
}

/// What the header of `image` declares, or the first reason why the image
/// cannot be run: it is too short, its controller is not supported, its ROM
/// size is not, its RAM size is not.
pub open spec fn header_of(image: Seq<u8>) -> Result<CartridgeHeader, CartridgeError> {
    if image.len() <= RAM_SIZE_OFFSET {
        Err(CartridgeError::Truncated)
    } else if controller_of(image[TYPE_OFFSET as int]) is None {
        Err(CartridgeError::UnsupportedController)
    } else if rom_banks_of(image[ROM_SIZE_OFFSET as int]) is None {
        Err(CartridgeError::UnsupportedRomSize)
    } else if ram_banks_of(image[RAM_SIZE_OFFSET as int]) is None {
        Err(CartridgeError::UnsupportedRamSize)
    } else {
        Ok(
            CartridgeHeader {
                kind: controller_of(image[TYPE_OFFSET as int])->0,
                rom_banks: rom_banks_of(image[ROM_SIZE_OFFSET as int])->0,
                ram_banks: ram_banks_of(image[RAM_SIZE_OFFSET as int])->0,
            },
        )
    }
}

/// The powers of two from the first to the ninth.
proof fn lemma_powers_of_two()
    ensures
        power_of_two(1) == 2,
        power_of_two(2) == 4,
        power_of_two(3) == 8,
        power_of_two(4) == 16,
        power_of_two(5) == 32,
        power_of_two(6) == 64,
        power_of_two(7) == 128,
        power_of_two(8) == 256,
        power_of_two(9) == 512,
{
    reveal_with_fuel(power_of_two, 10);
}

/// Reads the header of a cartridge image.
pub fn parse_header(image: &Vec<u8>) -> (parsed: Result<CartridgeHeader, CartridgeError>)
    ensures
        parsed == header_of(image@),
        parsed matches Ok(header) ==> valid_rom_banks(header.rom_banks) && valid_ram_banks(
            header.ram_banks,
        ),
{
    if image.len() <= RAM_SIZE_OFFSET {
        return Err(CartridgeError::Truncated);
    }
    let type_code: u8 = image[TYPE_OFFSET];
    let rom_code: u8 = image[ROM_SIZE_OFFSET];
    let ram_code: u8 = image[RAM_SIZE_OFFSET];
    let kind = if type_code == 0x00 {
        MbcKind::RomOnly
    } else if type_code <= 0x03 {
        MbcKind::Mbc1
    } else if 0x05 <= type_code && type_code <= 0x06 {
        MbcKind::Mbc2
    } else if 0x08 <= type_code && type_code <= 0x0D {
        MbcKind::RomOnly
    } else {
        return Err(CartridgeError::UnsupportedController);
    };
    proof {
        lemma_powers_of_two();
    }
    let rom_banks: u32 = match rom_code {
        0 => 2,
        1 => 4,
        2 => 8,
        3 => 16,
        4 => 32,
        5 => 64,
        6 => 128,
        7 => 256,
        8 => 512,
        _ => {
            return Err(CartridgeError::UnsupportedRomSize);
        },
    };
    let ram_banks: u8 = match ram_code {
        0 => 0,
        1 => 0,
        2 => 1,
        3 => 4,
        4 => 16,
        5 => 8,
        _ => {
            return Err(CartridgeError::UnsupportedRamSize);
        },
    };
    Ok(CartridgeHeader { kind, rom_banks, ram_banks })
}

} // verus!
