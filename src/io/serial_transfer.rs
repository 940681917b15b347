use vstd::prelude::*;

verus! {

/// Address of the serial data register (SB).
pub const SERIAL_DATA: u16 = 0xFF01;

/// Address of the serial control register (SC).
pub const SERIAL_CONTROL: u16 = 0xFF02;

/// The control value that starts a transfer on the internal clock.
pub const START_TRANSFER: u8 = 0x81;

/// The serial interface's registers and the interrupt request it raises (bit 3).
pub struct SerialView {
    pub data: u8,
    pub control: u8,
    pub interrupt: u8,
}

/// The serial interface. Moving the byte over the link is the caller's work: a
/// write that starts a transfer hands out the byte to send, and
/// `complete_transfer` takes the byte received, if any.
pub struct SerialTransfer {
    data: u8,
    control: u8,
    interrupt: u8,
}

impl View for SerialTransfer {
    type V = SerialView;

    closed spec fn view(&self) -> SerialView {
        SerialView { data: self.data, control: self.control, interrupt: self.interrupt }
    }
}

impl SerialTransfer {
    pub fn new() -> (r: Self)
        ensures
            r@ == (SerialView { data: 0, control: 0, interrupt: 0 }),
    {
        SerialTransfer { data: 0, control: 0, interrupt: 0 }
    }

    /// Reads SB, or SC with its unused bits set.
    pub fn mem_read(&self, address: u16) -> (r: u8)
        requires
            address == SERIAL_DATA || address == SERIAL_CONTROL,
        ensures
            r == (if address == SERIAL_DATA { self@.data } else { self@.control | 0x7E }),
    {
        if address == SERIAL_DATA {
            self.data
        } else {
            self.control | 0b0111_1110
        }
    }

    /// Writes SB or SC. Writing the start value to SC returns the byte in SB,
    /// which is to be sent.
    pub fn mem_write(&mut self, address: u16, data: u8) -> (r: Option<u8>)
        requires
            address == SERIAL_DATA || address == SERIAL_CONTROL,
        ensures
            address == SERIAL_DATA ==> final(self)@ == (SerialView { data, ..old(self)@ }) && r is None,
            address == SERIAL_CONTROL ==> final(self)@ == (SerialView { control: data, ..old(self)@ }) && r
                == (if data == START_TRANSFER {
                Some(old(self)@.data)
            } else {
                None
            }),
    {
        if address == SERIAL_DATA {
            self.data = data;
            None
        } else {
            self.control = data;
            if data == START_TRANSFER {
                Some(self.data)
            } else {
                None
            }
        }
    }

    /// Ends a transfer: a received byte replaces SB and requests the serial
    /// interrupt; without one nothing changes.
    pub fn complete_transfer(&mut self, received: Option<u8>)
        ensures
            final(self)@ == (match received {
                Some(d) => SerialView { data: d, interrupt: 0b1000, ..old(self)@ },
                None => old(self)@,
            }),
    {
        if let Some(d) = received {
            self.data = d;
            self.interrupt = 0b1000;
        }
    }

    /// The interrupt request raised by the last completed transfer.
    pub fn interrupt(&self) -> (r: u8)
        ensures
            r == self@.interrupt,
    {
        self.interrupt
    }
}

} // verus!
