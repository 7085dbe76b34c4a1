use vstd::prelude::*;

verus! {

pub const OP_WRITE_STATUS: u8 = 0x01;
pub const OP_READ: u8 = 0x03;
pub const OP_READ_STATUS: u8 = 0x05;
pub const OP_WRITE_ENABLE: u8 = 0x06;
pub const OP_READ_CONFIG: u8 = 0x15;
pub const OP_PAGE_PROGRAM: u8 = 0x38;
pub const OP_RESET_ENABLE: u8 = 0x66;
pub const OP_QUAD_READ: u8 = 0x6B;
pub const OP_RESET: u8 = 0x99;
pub const OP_READ_IDENTITY: u8 = 0x9F;
pub const OP_QUAD_IO_READ: u8 = 0xEB;

/// Bytes the controller's FIFO holds: the most one transaction can move.
pub const FIFO_CAPACITY: usize = 32;

/// How many wires carry one phase of a transaction.
#[derive(Clone, Copy, Debug, PartialEq, Eq, Structural)]
pub enum LineWidth {
    Single,
    Quad,
}

/// The address phase of a transaction, with its size in bits.
#[derive(Clone, Copy, Debug, PartialEq, Eq, Structural)]
pub enum Address {
    Absent,
    U8(u8),
    U24(u32),
    U32(u32),
}

/// The data phase of a transaction: none, a read of some length, or a payload
/// to send.
#[derive(Clone, Debug, PartialEq, Eq)]
pub enum DataPhase {
    Absent,
    Read(usize),
    Write(Vec<u8>),
}

pub enum DataPhaseView {
    Absent,
    Read(nat),
    Write(Seq<u8>),
}

/// One request/response exchange with the chip. The opcode always goes out on
/// a single wire; the address and data phases use the widths given here.
#[derive(Clone, Debug, PartialEq, Eq)]
pub struct Transaction {
    pub opcode: u8,
    pub address: Address,
    pub address_lines: LineWidth,
    pub dummy_cycles: u8,
    pub data: DataPhase,
    pub data_lines: LineWidth,
}

pub struct TransactionView {
    pub opcode: u8,
    pub address: Address,
    pub address_lines: LineWidth,
    pub dummy_cycles: u8,
    pub data: DataPhaseView,
    pub data_lines: LineWidth,
}

impl View for DataPhase {
    type V = DataPhaseView;

    open spec fn view(&self) -> DataPhaseView {
        match self {
            DataPhase::Absent => DataPhaseView::Absent,
            DataPhase::Read(n) => DataPhaseView::Read(*n as nat),
            DataPhase::Write(bytes) => DataPhaseView::Write(bytes@),
        }
    }
}

impl View for Transaction {
    type V = TransactionView;

    open spec fn view(&self) -> TransactionView {
        TransactionView {
            opcode: self.opcode,
            address: self.address,
            address_lines: self.address_lines,
            dummy_cycles: self.dummy_cycles,
            data: self.data@,
            data_lines: self.data_lines,
        }
    }
}

/// An opcode alone, on a single wire.
pub open spec fn command_spec(opcode: u8) -> TransactionView {
    TransactionView {
        opcode,
        address: Address::Absent,
        address_lines: LineWidth::Single,
        dummy_cycles: 0,
        data: DataPhaseView::Absent,
        data_lines: LineWidth::Single,
    }
}

/// An opcode followed by a read of `len` bytes, all on a single wire.
pub open spec fn register_read_spec(opcode: u8, len: nat) -> TransactionView {
    TransactionView { data: DataPhaseView::Read(len), ..command_spec(opcode) }
}

/// An opcode followed by `bytes`, all on a single wire.
pub open spec fn register_write_spec(opcode: u8, bytes: Seq<u8>) -> TransactionView {
    TransactionView { data: DataPhaseView::Write(bytes), ..command_spec(opcode) }
}

pub fn command(opcode: u8) -> (t: Transaction)
    ensures
        t@ == command_spec(opcode),
{
    Transaction {
        opcode,
        address: Address::Absent,
        address_lines: LineWidth::Single,
        dummy_cycles: 0,
        data: DataPhase::Absent,
        data_lines: LineWidth::Single,
    }
}

pub fn register_read(opcode: u8, len: usize) -> (t: Transaction)
    ensures
        t@ == register_read_spec(opcode, len as nat),
{
    Transaction {
        opcode,
        address: Address::Absent,
        address_lines: LineWidth::Single,
        dummy_cycles: 0,
        data: DataPhase::Read(len),
        data_lines: LineWidth::Single,
    }
}

pub fn register_write(opcode: u8, bytes: Vec<u8>) -> (t: Transaction)
    ensures
        t@ == register_write_spec(opcode, bytes@),
{
    Transaction {
        opcode,
        address: Address::Absent,
        address_lines: LineWidth::Single,
        dummy_cycles: 0,
        data: DataPhase::Write(bytes),
        data_lines: LineWidth::Single,
    }
}

} // verus!
