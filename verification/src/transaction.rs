//! SPI transactions with the chip, and the transactions that each display
//! operation of a configured driver sends.
//!
//! A driver sends the transactions in order and stops at the first one that
//! the SPI device fails.

use vstd::prelude::*;

use crate::bus::DisplayPosition;
use crate::bus::RuntimeState;
use crate::bus::display_position;
use crate::bus::display_slice_len;
use crate::bus::sanitize_display_byte;
use crate::bus::sanitize_spec;
use crate::bus::toggled_dmm;
use crate::bus::toggled_dmm_spec;
use crate::bus::write_text_position;
use crate::error::Error;
use crate::registers;

verus! {

/// One SPI transaction with the chip.
#[derive(Debug, Clone, Copy, PartialEq, Eq)]
pub enum Transaction {
    /// Writes the two bytes `[register, value]`.
    Write { register: u8, value: u8 },
    /// Writes the byte `[address]`, then reads one byte.
    Read { address: u8 },
    /// Writes the single byte END_STRING, which ends auto-increment mode.
    EndString,
}

/// The transaction that reads `register`.
pub open spec fn read_spec(register: u8) -> Transaction {
    Transaction::Read { address: register | registers::READ }
}

pub fn read_register(register: u8) -> (t: Transaction)
    ensures
        t == read_spec(register),
{
    Transaction::Read { address: register | registers::READ }
}

/// The transaction that reads the status register.
pub fn status_transaction() -> (t: Transaction)
    ensures
        t == read_spec(registers::STAT),
{
    read_register(registers::STAT)
}

/// Writes of the display memory address: high byte to DMAH, low byte to DMAL.
pub open spec fn address_writes(index: u16) -> Seq<Transaction> {
    seq![
        Transaction::Write { register: registers::DMAH, value: (index / 256) as u8 },
        Transaction::Write { register: registers::DMAL, value: (index % 256) as u8 },
    ]
}

/// Writing one byte at a display position: the address, then the byte,
/// sanitized, to DMDI.
pub open spec fn byte_plan(index: u16, value: u8) -> Seq<Transaction> {
    address_writes(index).push(
        Transaction::Write { register: registers::DMDI, value: sanitize_spec(value) },
    )
}

/// The DMDI writes of a run of bytes, each sanitized.
pub open spec fn data_writes(values: Seq<u8>) -> Seq<Transaction> {
    values.map_values(|v: u8| Transaction::Write { register: registers::DMDI, value: sanitize_spec(v) })
}

/// Writing a run of bytes from a display position: nothing for no byte, one
/// byte write for one byte; otherwise DMM with auto-increment, the address,
/// the bytes, END_STRING, and DMM restored to `dmm`.
pub open spec fn run_plan(dmm: u8, index: u16, values: Seq<u8>) -> Seq<Transaction> {
    if values.len() == 0 {
        Seq::empty()
    } else if values.len() == 1 {
        byte_plan(index, values[0])
    } else {
        seq![
            Transaction::Write {
                register: registers::DMM,
                value: dmm | registers::DMM_AUTO_INCREMENT,
            },
        ] + address_writes(index) + data_writes(values) + seq![
            Transaction::EndString,
            Transaction::Write { register: registers::DMM, value: dmm },
        ]
    }
}

fn push_address(plan: &mut Vec<Transaction>, index: u16)
    ensures
        final(plan)@ == old(plan)@ + address_writes(index),
{
    let high: u8 = (index >> 8) as u8;
    let low: u8 = index as u8;
    assert(high == index / 256) by (bit_vector)
        requires
            high == (index >> 8u16) as u8,
    ;
    assert(low == index % 256) by (bit_vector)
        requires
            low == index as u8,
    ;
    plan.push(Transaction::Write { register: registers::DMAH, value: high });
    plan.push(Transaction::Write { register: registers::DMAL, value: low });
}

/// The transactions that write one byte at a display position.
pub fn display_byte_transactions(position: DisplayPosition, value: u8) -> (plan: Vec<
    Transaction,
>)
    ensures
        plan@ == byte_plan(position@, value),
{
    let mut plan: Vec<Transaction> = Vec::new();
    push_address(&mut plan, position.index());
    plan.push(Transaction::Write { register: registers::DMDI, value: sanitize_display_byte(value) });
    plan
}

/// The run of 30 spaces that blanks a row.
pub open spec fn blank_row() -> Seq<u8> {
    Seq::new(30, |i: int| 0x20u8)
}

impl RuntimeState {
    /// The state after the invert bit of DMM is set to `invert`.
    pub open spec fn inverted(self, invert: bool) -> RuntimeState {
        RuntimeState { dmm: toggled_dmm_spec(self.dmm, invert), ..self }
    }

    pub fn with_invert(self, invert: bool) -> (s: RuntimeState)
        ensures
            s == self.inverted(invert),
    {
        let mut s = self;
        s.dmm = toggled_dmm(self.dmm, invert);
        s
    }

    /// The transaction that sets the invert bit of DMM.
    pub fn invert_transactions(&self, invert: bool) -> (plan: Vec<Transaction>)
        ensures
            plan@ == seq![
                Transaction::Write {
                    register: registers::DMM,
                    value: toggled_dmm_spec(self.dmm, invert),
                },
            ],
    {
        let mut plan: Vec<Transaction> = Vec::new();
        plan.push(Transaction::Write { register: registers::DMM, value: toggled_dmm(self.dmm, invert) });
        plan
    }

    /// Clearing the display memory: DMM with the clear bit, then DMM restored.
    pub fn clear_display_transactions(&self) -> (plan: Vec<Transaction>)
        ensures
            plan@ == seq![
                Transaction::Write {
                    register: registers::DMM,
                    value: self.dmm | registers::DMM_CLEAR_DISPLAY,
                },
                Transaction::Write { register: registers::DMM, value: self.dmm },
            ],
    {
        let mut plan: Vec<Transaction> = Vec::new();
        plan.push(
            Transaction::Write {
                register: registers::DMM,
                value: self.dmm | registers::DMM_CLEAR_DISPLAY,
            },
        );
        plan.push(Transaction::Write { register: registers::DMM, value: self.dmm });
        plan
    }

    /// The transactions that write a run of bytes from `position`, if the run
    /// fits in the display memory.
    pub fn display_run_transactions<SpiError>(&self, position: DisplayPosition, values: &[u8]) -> (r:
        Result<Vec<Transaction>, Error<SpiError>>)
        ensures
            values.len() > u16::MAX ==> r == Err::<Vec<Transaction>, Error<SpiError>>(
                Error::InputTooLong { len: values.len(), max: u16::MAX },
            ),
            values.len() <= u16::MAX && position@ + values.len() > self.geometry.len ==> r == Err::<
                Vec<Transaction>,
                Error<SpiError>,
            >(Error::OutOfBounds { position: position@, len: self.geometry.len }),
            values.len() <= u16::MAX && position@ + values.len() <= self.geometry.len ==> (r matches Ok(
                plan,
            ) && plan@ == run_plan(self.dmm, position@, values@)),
    {
        let len: u16 = match display_slice_len(values) {
            Ok(l) => l,
            Err(e) => {
                return Err(e);
            },
        };
        match crate::bus::check_display_range(self.geometry, position.index(), len) {
            Ok(()) => {},
            Err(e) => {
                return Err(e);
            },
        }
        if values.len() == 0 {
            return Ok(Vec::new());
        }
        if values.len() == 1 {
            return Ok(display_byte_transactions(position, values[0]));
        }
        let mut plan: Vec<Transaction> = Vec::new();
        plan.push(
            Transaction::Write {
                register: registers::DMM,
                value: self.dmm | registers::DMM_AUTO_INCREMENT,
            },
        );
        push_address(&mut plan, position.index());
        let ghost head = plan@;
        let mut i: usize = 0;
        while i < values.len()
            invariant
                i <= values.len(),
                plan@ == head + data_writes(values@.subrange(0, i as int)),
            decreases values.len() - i,
        {
            let v: u8 = values[i];
            plan.push(Transaction::Write { register: registers::DMDI, value: sanitize_display_byte(v) });
            proof {
                assert(data_writes(values@.subrange(0, i + 1)) =~= data_writes(
                    values@.subrange(0, i as int),
                ).push(
                    Transaction::Write { register: registers::DMDI, value: sanitize_spec(v) },
                ));
            }
            i = i + 1;
        }
        proof {
            assert(values@.subrange(0, values.len() as int) =~= values@);
        }
        plan.push(Transaction::EndString);
        plan.push(Transaction::Write { register: registers::DMM, value: self.dmm });
        proof {
            assert(plan@ =~= run_plan(self.dmm, position@, values@));
        }
        Ok(plan)
    }

    /// The transactions that write one character at `(x, y)`.
    pub fn char_transactions<SpiError>(&self, x: u8, y: u8, value: u8) -> (r: Result<
        Vec<Transaction>,
        Error<SpiError>,
    >)
        ensures
            !self.geometry.holds(x, y) ==> r == Err::<Vec<Transaction>, Error<SpiError>>(
                Error::InvalidCoordinate {
                    x,
                    y,
                    columns: self.geometry.columns,
                    rows: self.geometry.rows,
                },
            ),
            self.geometry.holds(x, y) ==> (r matches Ok(plan) && plan@ == byte_plan(
                self.geometry.cell_index(x, y) as u16,
                value,
            )),
    {
        let position = match display_position(self.geometry, x, y) {
            Ok(p) => p,
            Err(e) => {
                return Err(e);
            },
        };
        Ok(display_byte_transactions(position, value))
    }

    /// The transactions that write text from `(x, y)`; the text must end on
    /// the row where it starts.
    pub fn text_transactions<SpiError>(&self, x: u8, y: u8, values: &[u8]) -> (r: Result<
        Vec<Transaction>,
        Error<SpiError>,
    >)
        ensures
            !self.geometry.holds(x, y) ==> r == Err::<Vec<Transaction>, Error<SpiError>>(
                Error::InvalidCoordinate {
                    x,
                    y,
                    columns: self.geometry.columns,
                    rows: self.geometry.rows,
                },
            ),
            self.geometry.holds(x, y) && values.len() > u16::MAX ==> r == Err::<
                Vec<Transaction>,
                Error<SpiError>,
            >(Error::InputTooLong { len: values.len(), max: u16::MAX }),
            self.geometry.holds(x, y) && values.len() <= u16::MAX && self.geometry.cell_index(x, y)
                + values.len() > (y + 1) * self.geometry.columns ==> r == Err::<
                Vec<Transaction>,
                Error<SpiError>,
            >(
                Error::OutOfBounds {
                    position: self.geometry.cell_index(x, y) as u16,
                    len: ((y + 1) * self.geometry.columns) as u16,
                },
            ),
            self.geometry.holds(x, y) && values.len() <= u16::MAX && self.geometry.cell_index(x, y)
                + values.len() <= (y + 1) * self.geometry.columns && self.geometry.cell_index(x, y)
                + values.len() > self.geometry.len ==> r == Err::<Vec<Transaction>, Error<SpiError>>(
                Error::OutOfBounds {
                    position: self.geometry.cell_index(x, y) as u16,
                    len: self.geometry.len,
                },
            ),
            self.geometry.holds(x, y) && values.len() <= u16::MAX && self.geometry.cell_index(x, y)
                + values.len() <= (y + 1) * self.geometry.columns && self.geometry.cell_index(x, y)
                + values.len() <= self.geometry.len ==> (r matches Ok(plan) && plan@ == run_plan(
                self.dmm,
                self.geometry.cell_index(x, y) as u16,
                values@,
            )),
    {
        let position = match write_text_position(self.geometry, x, y, values) {
            Ok(p) => p,
            Err(e) => {
                return Err(e);
            },
        };
        self.display_run_transactions(position, values)
    }

    /// The transactions that blank row `y` with 30 spaces.
    pub fn clear_row_transactions<SpiError>(&self, y: u8) -> (r: Result<
        Vec<Transaction>,
        Error<SpiError>,
    >)
        ensures
            !self.geometry.holds(0, y) ==> r == Err::<Vec<Transaction>, Error<SpiError>>(
                Error::InvalidCoordinate {
                    x: 0,
                    y,
                    columns: self.geometry.columns,
                    rows: self.geometry.rows,
                },
            ),
            self.geometry.holds(0, y) && self.geometry.cell_index(0, y) + 30 > self.geometry.len
                ==> r == Err::<Vec<Transaction>, Error<SpiError>>(
                Error::OutOfBounds {
                    position: self.geometry.cell_index(0, y) as u16,
                    len: self.geometry.len,
                },
            ),
            self.geometry.holds(0, y) && self.geometry.cell_index(0, y) + 30 <= self.geometry.len
                ==> (r matches Ok(plan) && plan@ == run_plan(
                self.dmm,
                self.geometry.cell_index(0, y) as u16,
                blank_row(),
            )),
    {
        let position = match display_position(self.geometry, 0, y) {
            Ok(p) => p,
            Err(e) => {
                return Err(e);
            },
        };
        let spaces = [0x20u8; 30];
        proof {
            assert(spaces@ =~= blank_row());
        }
        self.display_run_transactions(position, &spaces)
    }
}

} // verus!
