use vstd::prelude::*;

verus! {

/// Where the cartridge ROM comes from.
pub enum RomReader {
    File { file_path: &'static str },
}

/// The serial port: unconnected, or a debug port that keeps the last byte
/// written to the transfer register.
pub enum SerialPort {
    Disconnected,
    Debug { byte: u8 },
}

impl SerialPort {
    /// The port after a byte is written to the transfer data register.
    pub open spec fn written(self, value: u8) -> SerialPort {
        match self {
            SerialPort::Disconnected => SerialPort::Disconnected,
            SerialPort::Debug { .. } => SerialPort::Debug { byte: value },
        }
    }

    /// What a write of `value` to the transfer control register sends out.
    pub open spec fn sent(self, value: u8) -> Option<u8> {
        match self {
            SerialPort::Debug { byte } => if value == 0x81 { Some(byte) } else { None },
            SerialPort::Disconnected => None,
        }
    }

    /// Stores a byte written to the transfer data register.
    pub fn write(&mut self, value: u8)
        ensures
            *final(self) == old(self).written(value),
    {
        match self {
            SerialPort::Disconnected => {},
            SerialPort::Debug { byte } => {
                *byte = value;
            },
        }
    }

    /// A write to the transfer control register: starting a transfer with
    /// the internal clock (0x81) on a debug port sends the stored byte out,
    /// which is returned.
    pub fn control(&self, value: u8) -> (sent: Option<u8>)
        ensures
            sent == self.sent(value),
    {
        match self {
            SerialPort::Disconnected => None,
            SerialPort::Debug { byte } => {
                if value == 0x81 {
                    Some(*byte)
                } else {
                    None
                }
            },
        }
    }
}

/// The emulator's connections to the outside: the ROM source and the
/// serial port.
pub struct Adapters {
    pub rom_reader: RomReader,
    pub serial_port: SerialPort,
}

impl Adapters {
    pub fn new(rom_reader: RomReader, serial_port: SerialPort) -> (r: Self)
        ensures
            r == (Adapters { rom_reader, serial_port }),
    {
        Self { rom_reader, serial_port }
    }

    pub fn rom_reader(&self) -> (r: &RomReader)
        ensures
            *r == self.rom_reader,
    {
        &self.rom_reader
    }

    pub fn get_rom_reader(&self) -> (r: &RomReader)
        ensures
            *r == self.rom_reader,
    {
        &self.rom_reader
    }

    pub fn serial_port(&mut self) -> (r: &mut SerialPort)
        ensures
            *r == old(self).serial_port,
            *final(self) == (Adapters { serial_port: *final(r), ..*old(self) }),
    {
        &mut self.serial_port
    }
}

/// A debug port sends out the last byte written to it when a transfer is
/// started with the internal clock; an unconnected port sends nothing.
pub proof fn lemma_serial_sends_written_byte(port: SerialPort, value: u8, control: u8)
    ensures
        port.written(value).sent(control) == (if port is Debug && control == 0x81 { Some(value) } else { None }),
{
}

} // verus!
