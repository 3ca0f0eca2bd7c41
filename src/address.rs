//! Modicon-style register numbers and their zero-based protocol offsets.
use vstd::prelude::*;

verus! {

/// First caller-facing number of the input-register space.
pub const INPUT_REGISTER_START: u16 = 30000;

/// First caller-facing number of the holding-register space.
pub const HOLDING_REGISTER_START: u16 = 40000;

/// One past the last caller-facing register number.
pub const REGISTER_END: u16 = 50000;

/// Number that maps onto input register offset zero.
pub const INPUT_REGISTER_BASE: u16 = 30001;

/// Number that maps onto holding register offset zero.
pub const HOLDING_REGISTER_BASE: u16 = 40001;

/// The two register spaces of the Modbus data model that this client reaches.
#[derive(Clone, Copy, Debug, PartialEq, Eq, Structural)]
pub enum RegisterSpace {
    Input,
    Holding,
}

/// A register number resolved to its space and zero-based protocol offset.
#[derive(Clone, Copy, Debug, PartialEq, Eq, Structural)]
pub struct RegisterLocation {
    pub space: RegisterSpace,
    pub offset: u16,
}

/// Numbers in `[30000, 40000)` address input registers.
pub open spec fn is_input_number(register: int) -> bool {
    30000 <= register < 40000
}

/// Numbers in `[40000, 50000)` address holding registers.
pub open spec fn is_holding_number(register: int) -> bool {
    40000 <= register < 50000
}

/// A number that a read accepts.
pub open spec fn is_readable(register: int) -> bool {
    is_input_number(register) || is_holding_number(register)
}

/// A number that a write accepts: strictly between 40001 and 50000.
pub open spec fn is_writable(register: int) -> bool {
    40001 < register < 50000
}

/// The offset that the number denotes within its space, as an integer.
/// It is `-1` at the first number of each space (30000 and 40000).
pub open spec fn offset_of(register: int) -> int {
    if is_input_number(register) {
        register - 30001
    } else {
        register - 40001
    }
}

/// The 16-bit offset placed on the wire: `offset_of` reduced modulo 2^16,
/// so the `-1` of a space's first number goes out as 65535.
pub open spec fn wire_offset(register: int) -> int {
    if offset_of(register) < 0 {
        offset_of(register) + 0x10000
    } else {
        offset_of(register)
    }
}

/// Where a readable number points.
pub open spec fn read_location(register: int) -> RegisterLocation {
    RegisterLocation {
        space: if is_input_number(register) {
            RegisterSpace::Input
        } else {
            RegisterSpace::Holding
        },
        offset: wire_offset(register) as u16,
    }
}

/// Offset `register - base`, taken modulo 2^16.
fn offset_from(register: u16, base: u16) -> (r: u16)
    ensures
        r as int == if register >= base {
            register - base
        } else {
            register - base + 0x10000
        },
{
    if register >= base {
        register - base
    } else {
        register.wrapping_sub(base)
    }
}

/// Resolves a number for a read: `None` outside `[30000, 50000)`.
pub fn classify_read(register: u16) -> (r: Option<RegisterLocation>)
    ensures
        r == (if is_readable(register as int) {
            Some(read_location(register as int))
        } else {
            None::<RegisterLocation>
        }),
{
    if INPUT_REGISTER_START <= register && register < HOLDING_REGISTER_START {
        Some(RegisterLocation {
            space: RegisterSpace::Input,
            offset: offset_from(register, INPUT_REGISTER_BASE),
        })
    } else if HOLDING_REGISTER_START <= register && register < REGISTER_END {
        Some(RegisterLocation {
            space: RegisterSpace::Holding,
            offset: offset_from(register, HOLDING_REGISTER_BASE),
        })
    } else {
        None
    }
}

/// Resolves a number for a write: the holding-register offset, or `None`
/// unless `40001 < register < 50000`.
pub fn classify_write(register: u16) -> (r: Option<u16>)
    ensures
        r == (if is_writable(register as int) {
            Some((register - 40001) as u16)
        } else {
            None::<u16>
        }),
{
    if register > HOLDING_REGISTER_BASE && register < REGISTER_END {
        Some(register - HOLDING_REGISTER_BASE)
    } else {
        None
    }
}

/// Inside each readable space the offset is the number less the space's
/// base (30001 for input registers, 40001 for holding registers), and it is
/// non-negative, and sent as is, from the base upwards.
pub proof fn read_offset_law(register: u16)
    ensures
        is_input_number(register as int) ==> read_location(register as int).space
            == RegisterSpace::Input && offset_of(register as int) == register - 30001,
        is_holding_number(register as int) ==> read_location(register as int).space
            == RegisterSpace::Holding && offset_of(register as int) == register - 40001,
        is_readable(register as int) && register != 30000 && register != 40000 ==> (offset_of(
            register as int,
        ) >= 0 && read_location(register as int).offset == offset_of(register as int)),
{
}

/// No number outside `[30000, 50000)` is accepted by a read or by a write.
pub proof fn outside_range_rejected_law(register: u16)
    requires
        register < 30000 || register >= 50000,
    ensures
        !is_readable(register as int),
        !is_writable(register as int),
{
}

/// No number at or below 40001, nor at or above 50000, is accepted by a write.
pub proof fn write_bounds_law(register: u16)
    requires
        register <= 40001 || register >= 50000,
    ensures
        !is_writable(register as int),
{
}

} // verus!
