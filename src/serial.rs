//! The serial data and control registers. Bytes whose transfer is started
//! are collected for the host to print.
use vstd::prelude::*;

use crate::utils::{bit, is_set};

verus! {

pub struct Serial {
    /// Serial transfer data (0xFF01).
    pub data: u8,
    /// Serial transfer control (0xFF02).
    pub control: u8,
    /// Whether started transfers are kept in `output`.
    pub print_serial: bool,
    /// Bytes sent out and not yet taken by the host.
    pub output: Vec<u8>,
}

impl Serial {
    pub open spec fn spec_read(self, address: u16) -> u8 {
        if address == 0xFF01 {
            self.data
        } else {
            self.control
        }
    }

    pub fn new(print_serial: bool) -> (r: Serial)
        ensures
            r.data == 0 && r.control == 0 && r.print_serial == print_serial && r.output@.len() == 0,
    {
        Serial { data: 0, control: 0, print_serial, output: Vec::new() }
    }

    pub fn read_byte(&self, address: u16) -> (r: u8)
        requires
            address == 0xFF01 || address == 0xFF02,
        ensures
            address == 0xFF01 ==> r == self.data,
            address == 0xFF02 ==> r == self.control,
            r == self.spec_read(address),
    {
        if address == 0xFF01 {
            self.data
        } else {
            self.control
        }
    }

    /// `self` is `before` after `byte` is written at `address`.
    pub open spec fn wrote(self, before: Serial, address: u16, byte: u8) -> bool {
        &&& self.print_serial == before.print_serial
        &&& address == 0xFF01 ==> self.data == byte && self.control == before.control
            && self.output@ == before.output@
        &&& address == 0xFF02 ==> self.data == before.data && self.control == byte
        &&& address == 0xFF02 && bit(byte, 7) && before.print_serial ==> self.output@
            == before.output@.push(before.data)
        &&& address == 0xFF02 && !(bit(byte, 7) && before.print_serial) ==> self.output@
            == before.output@
    }

    /// Writes a register. A control byte with bit 7 set starts a transfer:
    /// the data byte goes to `output` when printing is on.
    pub fn write_byte(&mut self, address: u16, byte: u8)
        requires
            address == 0xFF01 || address == 0xFF02,
        ensures
            final(self).wrote(*old(self), address, byte),
    {
        if address == 0xFF01 {
            self.data = byte;
        } else {
            self.control = byte;
            if is_set(byte, 7) && self.print_serial {
                self.output.push(self.data);
            }
        }
    }

    /// Hands over the bytes sent since the last call.
    pub fn take_output(&mut self) -> (r: Vec<u8>)
        ensures
            r@ == old(self).output@,
            final(self).output@.len() == 0,
            final(self).data == old(self).data,
            final(self).control == old(self).control,
            final(self).print_serial == old(self).print_serial,
    {
        let mut taken: Vec<u8> = Vec::new();
        core::mem::swap(&mut taken, &mut self.output);
        taken
    }
}

} // verus!
