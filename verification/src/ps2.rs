use vstd::prelude::*;

verus! {

/// The 8042 controller's data port.
pub const DATA_PORT: u16 = 0x60;
/// The 8042 controller's status port (read) and command port (write).
pub const STATUS_PORT: u16 = 0x64;
pub const CMD_PORT: u16 = 0x64;

/// Status bit: a byte waits in the output buffer.
pub const STATUS_OUTPUT_FULL: u8 = 0x01;
/// Status bit: the controller has not yet taken the last byte written.
pub const STATUS_INPUT_FULL: u8 = 0x02;
pub const STATUS_SYSTEM_FLAG: u8 = 0x04;

/// How many times a wait polls the status port before it gives up.
pub const WAIT_POLLS: u32 = 10000;

/// Controller command: the next data byte goes to the auxiliary device.
pub const CMD_MOUSE_CMD: u8 = 0xD4;

/// Acknowledge byte of keyboards and pointing devices.
pub const ACK: u8 = 0xFA;

/// One port operation of a PS/2 exchange.
#[derive(Debug, Clone, Copy, PartialEq, Eq, Structural)]
pub enum Ps2Op {
    /// Poll the status port until the input buffer is empty (or give up).
    WaitWrite,
    /// Poll the status port until the output buffer is full (or give up).
    WaitRead,
    /// Write a byte to the command port.
    WriteCmd(u8),
    /// Write a byte to the data port.
    WriteData(u8),
    /// Read a byte from the data port; it is the next input of the exchange.
    ReadData,
}

/// A byte waits to be read.
pub fn output_full(status: u8) -> (r: bool)
    ensures
        r == (status & STATUS_OUTPUT_FULL != 0),
{
    status & STATUS_OUTPUT_FULL != 0
}

/// The controller can take another byte.
pub fn input_empty(status: u8) -> (r: bool)
    ensures
        r == (status & STATUS_INPUT_FULL == 0),
{
    status & STATUS_INPUT_FULL == 0
}

/// A wait of kind `op` is over once the status byte shows it.
pub fn wait_done(op: Ps2Op, status: u8) -> (r: bool)
    ensures
        op == Ps2Op::WaitWrite ==> r == (status & STATUS_INPUT_FULL == 0),
        op == Ps2Op::WaitRead ==> r == (status & STATUS_OUTPUT_FULL != 0),
        op != Ps2Op::WaitWrite && op != Ps2Op::WaitRead ==> r,
{
    match op {
        Ps2Op::WaitWrite => input_empty(status),
        Ps2Op::WaitRead => output_full(status),
        _ => true,
    }
}

/// One poll of a wait: `status` is the status port, read after
/// `polls_done` earlier polls found the controller busy. The wait ends when
/// the controller is ready or `WAIT_POLLS` polls have found it busy; the
/// access that follows is made either way.
pub fn wait_over(op: Ps2Op, polls_done: u32, status: u8) -> (r: bool)
    requires
        polls_done < WAIT_POLLS,
    ensures
        r == (wait_done_spec(op, status) || polls_done + 1 >= WAIT_POLLS),
{
    wait_done(op, status) || polls_done + 1 >= WAIT_POLLS
}

/// The controller is ready for the access that `op` waits for.
pub open spec fn wait_done_spec(op: Ps2Op, status: u8) -> bool {
    match op {
        Ps2Op::WaitWrite => status & STATUS_INPUT_FULL == 0,
        Ps2Op::WaitRead => status & STATUS_OUTPUT_FULL != 0,
        _ => true,
    }
}

/// The operations that send `cmd` to the auxiliary device and read its reply.
pub open spec fn aux_command_ops(cmd: u8) -> Seq<Ps2Op> {
    seq![
        Ps2Op::WaitWrite,
        Ps2Op::WriteCmd(CMD_MOUSE_CMD),
        Ps2Op::WaitWrite,
        Ps2Op::WriteData(cmd),
        Ps2Op::WaitRead,
        Ps2Op::ReadData,
    ]
}

/// Appends the operations that send `cmd` to the auxiliary device and read
/// its reply.
pub fn push_aux_command(ops: &mut Vec<Ps2Op>, cmd: u8)
    ensures
        final(ops)@ == old(ops)@ + aux_command_ops(cmd),
{
    ops.push(Ps2Op::WaitWrite);
    ops.push(Ps2Op::WriteCmd(CMD_MOUSE_CMD));
    ops.push(Ps2Op::WaitWrite);
    ops.push(Ps2Op::WriteData(cmd));
    ops.push(Ps2Op::WaitRead);
    ops.push(Ps2Op::ReadData);
    assert(ops@ =~= old(ops)@ + aux_command_ops(cmd));
}

/// A step of an exchange: an operation to perform, or the end with a result.
#[derive(Debug)]
pub enum Ps2Step<E> {
    Do(Ps2Op),
    Done(Result<(), E>),
}

} // verus!
