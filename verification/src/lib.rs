use vstd::prelude::*;

pub mod bus;
pub mod command;

use crate::bus::RegisterBus;
use crate::command::{column_command, Command, WRITE_COMMAND, WRITE_DATA};

verus! {

/// A base address is usable only if the device's four register offsets fit
/// below the bus's reserved top addresses: the last register, `address + 3`,
/// must stay under `0x7e`.
pub open spec fn valid_base_address(address: u8) -> bool {
    address + 3 < 0x7e
}

/// Exactly the addresses below `0x7e - 3` leave room for the four register
/// offsets, so construction of a driver is possible for those and no others.
pub proof fn lemma_valid_base_address_bound(address: u8)
    ensures
        valid_base_address(address) <==> address < 0x7e - 3,
{
}

/// The four preset base addresses the controller can be strapped to.
#[derive(Copy, Clone, Debug, PartialEq, Eq, Structural)]
pub enum AddressOption {
    A,
    B,
    C,
    D,
}

impl AddressOption {
    /// The bus base address this preset names.
    pub open spec fn spec_address(self) -> u8 {
        match self {
            AddressOption::A => 0x70,
            AddressOption::B => 0x74,
            AddressOption::C => 0x7c,
            AddressOption::D => 0x78,
        }
    }

    /// The bus base address this preset names.
    pub fn address(self) -> (address: u8)
        ensures
            address == self.spec_address(),
    {
        match self {
            AddressOption::A => 0x70,
            AddressOption::B => 0x74,
            AddressOption::C => 0x7c,
            AddressOption::D => 0x78,
        }
    }
}

/// Driver for a UC1611S-class display controller on a register-addressed
/// bus. It owns the bus handle and a validated base address; every operation
/// is one or two bus writes whose bytes and register addresses the contracts
/// pin down exactly.
pub struct UC1611S<Bus> {
    bus: Bus,
    base_address: u8,
}

/// Width and height of the drawing surface the driver exposes.
pub const SURFACE_SIZE: u32 = 64;

impl<Bus: RegisterBus> UC1611S<Bus> {
    /// The validated base address the driver was constructed with.
    pub closed spec fn base(self) -> u8 {
        self.base_address
    }

    /// The history of writes on the owned bus, oldest first.
    pub closed spec fn writes(self) -> Seq<(u8, Seq<u8>)> {
        self.bus.writes()
    }

    /// A driver is well-formed when its base address leaves room for the
    /// four register offsets; every constructor establishes this and every
    /// operation preserves it.
    pub closed spec fn wf(self) -> bool {
        valid_base_address(self.base_address)
    }

    /// A driver at the default base address, preset `A`.
    pub fn new(bus: Bus) -> (driver: Self)
        ensures
            driver.wf(),
            driver.base() == AddressOption::A.spec_address(),
            driver.writes() == bus.writes(),
    {
        Self::new_custom_address(bus, AddressOption::A.address())
    }

    /// A driver at one of the preset base addresses. Preset `C` stands above
    /// the address ceiling and is therefore not accepted.
    pub fn new_with_address(bus: Bus, address: AddressOption) -> (driver: Self)
        requires
            valid_base_address(address.spec_address()),
        ensures
            driver.wf(),
            driver.base() == address.spec_address(),
            driver.writes() == bus.writes(),
    {
        Self::new_custom_address(bus, address.address())
    }

    /// A driver at an arbitrary base address, which must leave room for the
    /// four register offsets below the bus's reserved top addresses.
    pub fn new_custom_address(bus: Bus, base_address: u8) -> (driver: Self)
        requires
            valid_base_address(base_address),
        ensures
            driver.wf(),
            driver.base() == base_address,
            driver.writes() == bus.writes(),
    {
        UC1611S { bus, base_address }
    }

    /// Forward `data` verbatim to the device's data-write channel as a
    /// single bus write; a bus failure is returned unmodified.
    pub fn write_data(&mut self, data: &[u8]) -> (result: Result<(), Bus::BusError>)
        requires
            old(self).wf(),
        ensures
            final(self).wf(),
            final(self).base() == old(self).base(),
            result is Ok ==> final(self).writes() == old(self).writes().push(
                (((old(self).base() + WRITE_DATA) as u8), data@),
            ),
    {
        Command::WriteData(data).send(&mut self.bus, self.base_address)
    }

    /// Select the active column for subsequent data writes, as a single
    /// two-byte write on the device's command channel. The device's framing
    /// addresses columns with eight bits, so the column must fit in one byte.
    pub fn set_column_address(&mut self, column_address: u16) -> (result: Result<
        (),
        Bus::BusError,
    >)
        requires
            old(self).wf(),
            column_address <= 0xff,
        ensures
            final(self).wf(),
            final(self).base() == old(self).base(),
            result is Ok ==> final(self).writes() == old(self).writes().push(
                (((old(self).base() + WRITE_COMMAND) as u8), column_command(column_address as u8)),
            ),
    {
        Command::SetColumnAddress(column_address as u8).send(&mut self.bus, self.base_address)
    }

    /// Consume the driver and hand its bus back to the caller, with the
    /// write history the driver produced on it.
    pub fn release(self) -> (bus: Bus)
        ensures
            bus.writes() == self.writes(),
    {
        self.bus
    }

    /// The fixed logical size of the drawing surface, regardless of bus
    /// state or address configuration.
    pub fn size(&self) -> (size: (u32, u32))
        ensures
            size == (SURFACE_SIZE, SURFACE_SIZE),
    {
        (SURFACE_SIZE, SURFACE_SIZE)
    }

    /// Apply one logical pixel to the device: select the pixel's column,
    /// then write its row and luma on the data channel. A pixel whose
    /// coordinates fall outside the surface is silently discarded — this
    /// path is total over all coordinates and never fails on them. A bus
    /// failure is returned unmodified; the device's column state is then
    /// unknown and the caller must re-select it.
    pub fn draw_pixel(&mut self, x: i32, y: i32, luma: u8) -> (result: Result<
        (),
        Bus::BusError,
    >)
        requires
            old(self).wf(),
        ensures
            final(self).wf(),
            final(self).base() == old(self).base(),
            !pixel_in_bounds(x as int, y as int) ==> result is Ok && final(self).writes() == old(
                self,
            ).writes(),
            pixel_in_bounds(x as int, y as int) && result is Ok ==> final(self).writes() == old(
                self,
            ).writes() + pixel_writes(old(self).base(), x as u8, y as u8, luma),
    {
        if 0 <= x && x < 64 && 0 <= y && y < 64 {
            match self.set_column_address(x as u16) {
                Ok(()) => {},
                Err(error) => {
                    return Err(error);
                },
            }
            let row_and_luma: [u8; 2] = [y as u8, luma];
            let result = self.write_data(row_and_luma.as_slice());
            proof {
                assert(row_and_luma@ =~= seq![y as u8, luma]);
                if result is Ok {
                    assert(self.writes() =~~= old(self).writes() + pixel_writes(
                        old(self).base(),
                        x as u8,
                        y as u8,
                        luma,
                    ));
                }
            }
            result
        } else {
            Ok(())
        }
    }
}

/// A pixel is drawn only when both of its coordinates lie on the 64-by-64
/// surface.
pub open spec fn pixel_in_bounds(x: int, y: int) -> bool {
    &&& 0 <= x < SURFACE_SIZE
    &&& 0 <= y < SURFACE_SIZE
}

/// The two bus writes that put one in-bounds pixel on the device: a column
/// select on the command channel, then the pixel's row and luma on the data
/// channel.
pub open spec fn pixel_writes(base_address: u8, column: u8, row: u8, luma: u8) -> Seq<
    (u8, Seq<u8>),
> {
    seq![
        (((base_address + WRITE_COMMAND) as u8), column_command(column)),
        (((base_address + WRITE_DATA) as u8), seq![row, luma]),
    ]
}

} // verus!
