use vstd::prelude::*;

use crate::bus::RegisterBus;
use crate::valid_base_address;

verus! {

/// Register offset selecting the device's command channel.
pub const WRITE_COMMAND: u8 = 0;
/// Register offset selecting the device's status channel.
pub const READ_STATUS: u8 = 1;
/// Register offset selecting the device's data-write channel.
pub const WRITE_DATA: u8 = 2;
/// Register offset selecting the device's data-read channel.
pub const READ_DATA: u8 = 3;

/// One logical operation on the display controller, translated by `send`
/// into exactly one bus write at the offset the device expects.
pub enum Command<'command> {
    /// Raw pixel or command-argument data, forwarded verbatim to the
    /// data-write channel.
    WriteData(&'command [u8]),
    /// Select the active column for subsequent data writes.
    SetColumnAddress(u8),
}

/// The device's two-byte framing of a column select: the column's low nibble
/// stands alone in the first byte, its high nibble is tagged with bit 4 set
/// in the second, so the pair self-delimits without a length prefix.
pub open spec fn column_command(column: u8) -> Seq<u8> {
    seq![column & 0x0f, 0x10 | (column >> 4)]
}

impl<'command> Command<'command> {
    /// The register offset this command is written to.
    pub open spec fn offset(self) -> u8 {
        match self {
            Command::WriteData(_) => WRITE_DATA,
            Command::SetColumnAddress(_) => WRITE_COMMAND,
        }
    }

    /// The exact bytes this command puts on the bus.
    pub open spec fn payload(self) -> Seq<u8> {
        match self {
            Command::WriteData(data) => data@,
            Command::SetColumnAddress(column) => column_command(column),
        }
    }

    /// Issue this command as a single write on `bus`, at the register
    /// `base_address + offset`. A bus failure is returned unmodified; the
    /// encoder itself never fails.
    pub fn send<Bus: RegisterBus>(&self, bus: &mut Bus, base_address: u8) -> (result: Result<
        (),
        Bus::BusError,
    >)
        requires
            valid_base_address(base_address),
        ensures
            result is Ok ==> final(bus).writes() == old(bus).writes().push(
                (((base_address + self.offset()) as u8), self.payload()),
            ),
    {
        match self {
            Command::WriteData(data) => bus.write(base_address + WRITE_DATA, data),
            Command::SetColumnAddress(column) => {
                let low_nybble: u8 = *column & 0x0f;
                let high_nybble: u8 = *column >> 4;
                let command_bytes: [u8; 2] = [low_nybble, 0x10 | high_nybble];
                assert(command_bytes@ =~= column_command(*column));
                bus.write(base_address + WRITE_COMMAND, command_bytes.as_slice())
            },
        }
    }
}

/// The four register offsets are fixed for the device's lifetime: command,
/// status, data-write and data-read stand at 0, 1, 2 and 3.
pub proof fn lemma_register_offsets_fixed()
    ensures
        WRITE_COMMAND == 0,
        READ_STATUS == 1,
        WRITE_DATA == 2,
        READ_DATA == 3,
{
}

/// For every 8-bit column, the column-select command targets the command
/// channel and its payload is exactly the nibble-split pair
/// `[column & 0x0f, 0x10 | (column >> 4)]`.
pub proof fn lemma_set_column_address_encoding(column: u8)
    ensures
        Command::SetColumnAddress(column).offset() == WRITE_COMMAND,
        Command::SetColumnAddress(column).payload() == seq![
            (column & 0x0f),
            (0x10 | (column >> 4)),
        ],
{
    assert(Command::SetColumnAddress(column).payload() =~= seq![
        (column & 0x0f),
        (0x10 | (column >> 4)),
    ]);
}

/// A data command targets the data-write channel and forwards its bytes
/// unchanged, the empty sequence included.
pub proof fn lemma_write_data_encoding(command: Command)
    requires
        command is WriteData,
    ensures
        command.offset() == WRITE_DATA,
        command.payload() == command->WriteData_0@,
{
}

} // verus!
