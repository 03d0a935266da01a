use vstd::prelude::*;

verus! {

pub type BtResult = Result<(), BtError>;

#[derive(Debug, Clone, Copy, PartialEq, Eq, Structural)]
pub enum BtError {
    NotFound,
    HciInitFailed,
    CommandTimeout,
    ConnectionFailed,
    Disconnected,
}

#[derive(Debug, Clone, Copy, PartialEq, Eq, Structural)]
pub enum BtTransport {
    Usb,
    Uart,
    Virtual,
}

/// A Bluetooth device address.
#[derive(Debug, Clone, Copy)]
pub struct BdAddr(pub [u8; 6]);

impl BdAddr {
    pub fn from_bytes(b: &[u8; 6]) -> (r: Self)
        ensures
            r.0@ == b@,
    {
        BdAddr(*b)
    }
}

#[derive(Debug, Clone, Copy, PartialEq, Eq, Structural)]
pub enum LePhy {
    Le1M,
    Le2M,
    LeCoded,
}

#[derive(Debug, Clone, Copy)]
pub struct BtDeviceInfo {
    pub address: BdAddr,
    pub name: [u8; 248],
    pub rssi: i8,
    pub eir: [u8; 240],
}

#[derive(Debug, Clone, Copy, PartialEq, Eq, Structural)]
pub enum HciPacketType {
    Command,
    AclData,
    SyncData,
    Event,
    IsoData,
}

impl HciPacketType {
    /// Packet indicator byte that precedes the packet on the transport.
    pub fn value(self) -> (r: u8)
        ensures
            r == match self {
                HciPacketType::Command => 0x01u8,
                HciPacketType::AclData => 0x02u8,
                HciPacketType::SyncData => 0x03u8,
                HciPacketType::Event => 0x04u8,
                HciPacketType::IsoData => 0x05u8,
            },
    {
        match self {
            HciPacketType::Command => 0x01,
            HciPacketType::AclData => 0x02,
            HciPacketType::SyncData => 0x03,
            HciPacketType::Event => 0x04,
            HciPacketType::IsoData => 0x05,
        }
    }
}

/// Room for parameters in one command.
pub const HCI_PARAMS: usize = 16;

pub const OP_RESET: u16 = 0x0C03;
pub const OP_SET_EVENT_MASK: u16 = 0x0C01;
pub const OP_WRITE_LOCAL_NAME: u16 = 0x0C13;
pub const OP_LE_SET_ADV_ENABLE: u16 = 0x200A;
pub const OP_LE_SET_ADV_DATA: u16 = 0x2008;
pub const OP_LE_SET_SCAN_ENABLE: u16 = 0x200C;
pub const OP_LE_SET_SCAN_PARAMS: u16 = 0x200B;

/// Longest local name the write-local-name command carries.
pub const MAX_NAME_LEN: usize = 248;
/// Longest advertising payload.
pub const MAX_ADV_DATA_LEN: usize = 31;

#[derive(Debug, Clone, Copy)]
pub struct HciCommand {
    pub opcode: u16,
    pub params: [u8; 16],
    pub param_len: u8,
}

/// Sixteen parameter bytes: `prefix` and then zeros.
pub open spec fn params_with(prefix: Seq<u8>) -> Seq<u8> {
    Seq::new(16, |i: int| if i < prefix.len() { prefix[i] } else { 0u8 })
}

/// A command holds `opcode`, the given parameters and the given length.
pub open spec fn command_is(cmd: HciCommand, opcode: u16, prefix: Seq<u8>, len: int) -> bool {
    &&& cmd.opcode == opcode
    &&& cmd.params@ == params_with(prefix)
    &&& cmd.param_len == len
}

pub open spec fn min(a: int, b: int) -> int {
    if a < b { a } else { b }
}

/// Event mask enabling every event but the reserved top bits.
pub open spec fn event_mask() -> Seq<u8> {
    seq![0xFFu8, 0xFFu8, 0xFFu8, 0xFFu8, 0xFFu8, 0xFFu8, 0xFFu8, 0x3Fu8]
}

/// Scan parameters: active scan, interval and window of 0x30 slots, public
/// address, accept all.
pub open spec fn scan_params() -> Seq<u8> {
    seq![0x01u8, 0x30u8, 0x00u8, 0x30u8, 0x00u8, 0x00u8, 0x00u8]
}

fn command(opcode: u16, param_len: u8) -> (cmd: HciCommand)
    ensures
        command_is(cmd, opcode, Seq::empty(), param_len as int),
{
    let cmd = HciCommand { opcode, params: [0u8; 16], param_len };
    assert(cmd.params@ =~= params_with(Seq::empty()));
    cmd
}

pub fn reset_command() -> (cmd: HciCommand)
    ensures
        command_is(cmd, OP_RESET, Seq::empty(), 0),
{
    command(OP_RESET, 0)
}

pub fn event_mask_command() -> (cmd: HciCommand)
    ensures
        command_is(cmd, OP_SET_EVENT_MASK, event_mask(), 8),
{
    let mut cmd = command(OP_SET_EVENT_MASK, 8);
    let mut i: usize = 0;
    while i < 7
        invariant
            i <= 7,
            cmd.opcode == OP_SET_EVENT_MASK,
            cmd.param_len == 8,
            cmd.params@ == params_with(event_mask().take(i as int)),
        decreases 7 - i,
    {
        cmd.params[i] = 0xFF;
        i = i + 1;
        assert(cmd.params@ =~= params_with(event_mask().take(i as int)));
    }
    cmd.params[7] = 0x3F;
    assert(cmd.params@ =~= params_with(event_mask()));
    cmd
}

pub fn local_name_command(name: &[u8]) -> (cmd: HciCommand)
    requires
        name@.len() <= HCI_PARAMS,
    ensures
        command_is(cmd, OP_WRITE_LOCAL_NAME, name@, name@.len() as int),
{
    let len = if name.len() < MAX_NAME_LEN { name.len() } else { MAX_NAME_LEN };
    let mut cmd = command(OP_WRITE_LOCAL_NAME, len as u8);
    let mut i: usize = 0;
    while i < len
        invariant
            i <= len,
            len == name@.len(),
            len <= 16,
            cmd.opcode == OP_WRITE_LOCAL_NAME,
            cmd.param_len == len,
            cmd.params@ == params_with(name@.take(i as int)),
        decreases len - i,
    {
        cmd.params[i] = name[i];
        i = i + 1;
        assert(cmd.params@ =~= params_with(name@.take(i as int)));
    }
    assert(name@.take(len as int) =~= name@);
    cmd
}

pub fn adv_enable_command(enable: bool) -> (cmd: HciCommand)
    ensures
        command_is(cmd, OP_LE_SET_ADV_ENABLE, seq![if enable { 1u8 } else { 0u8 }], 1),
{
    let mut cmd = command(OP_LE_SET_ADV_ENABLE, 1);
    cmd.params[0] = if enable { 1 } else { 0 };
    assert(cmd.params@ =~= params_with(seq![if enable { 1u8 } else { 0u8 }]));
    cmd
}

pub fn adv_data_command(data: &[u8]) -> (cmd: HciCommand)
    requires
        data@.len() < HCI_PARAMS,
    ensures
        command_is(cmd, OP_LE_SET_ADV_DATA, seq![data@.len() as u8] + data@, data@.len() as int + 1),
{
    let len = if data.len() < MAX_ADV_DATA_LEN { data.len() } else { MAX_ADV_DATA_LEN };
    let mut cmd = command(OP_LE_SET_ADV_DATA, 1 + len as u8);
    cmd.params[0] = len as u8;
    let ghost full = seq![len as u8] + data@;
    assert(cmd.params@ =~= params_with(full.take(1)));
    let mut i: usize = 0;
    while i < len
        invariant
            i <= len,
            len == data@.len(),
            len < 16,
            full == seq![len as u8] + data@,
            cmd.opcode == OP_LE_SET_ADV_DATA,
            cmd.param_len == len + 1,
            cmd.params@ == params_with(full.take(i + 1)),
        decreases len - i,
    {
        cmd.params[i + 1] = data[i];
        i = i + 1;
        assert(cmd.params@ =~= params_with(full.take(i + 1)));
    }
    assert(full.take(len + 1) =~= full);
    cmd
}

pub fn scan_enable_command(enable: bool, passive: bool) -> (cmd: HciCommand)
    ensures
        command_is(cmd, OP_LE_SET_SCAN_ENABLE,
            seq![if enable { 1u8 } else { 0u8 }, if passive { 0u8 } else { 1u8 }], 2),
{
    let mut cmd = command(OP_LE_SET_SCAN_ENABLE, 2);
    cmd.params[0] = if enable { 1 } else { 0 };
    cmd.params[1] = if passive { 0x00 } else { 0x01 };
    assert(cmd.params@ =~= params_with(seq![if enable { 1u8 } else { 0u8 }, if passive { 0u8 } else { 1u8 }]));
    cmd
}

pub fn scan_params_command() -> (cmd: HciCommand)
    ensures
        command_is(cmd, OP_LE_SET_SCAN_PARAMS, scan_params(), 7),
{
    let mut cmd = command(OP_LE_SET_SCAN_PARAMS, 7);
    cmd.params[0] = 0x01;
    cmd.params[1] = 0x30;
    cmd.params[2] = 0x00;
    cmd.params[3] = 0x30;
    cmd.params[4] = 0x00;
    cmd.params[5] = 0x00;
    cmd.params[6] = 0x00;
    assert(cmd.params@ =~= params_with(scan_params()));
    cmd
}

pub struct BluetoothController {
    transport: BtTransport,
    hci_handle: u16,
    initialized: bool,
}

impl BluetoothController {
    pub closed spec fn spec_transport(&self) -> BtTransport {
        self.transport
    }

    pub closed spec fn spec_initialized(&self) -> bool {
        self.initialized
    }

    /// What sending any command gives: only the virtual transport accepts it.
    pub open spec fn send_result(&self) -> BtResult {
        if self.spec_transport() == BtTransport::Virtual {
            Ok(())
        } else {
            Err(BtError::HciInitFailed)
        }
    }

    pub fn new(transport: BtTransport) -> (r: Self)
        ensures
            r.spec_transport() == transport,
            !r.spec_initialized(),
    {
        Self { transport, hci_handle: 0, initialized: false }
    }

    pub fn init(&mut self) -> (r: BtResult)
        ensures
            r is Ok,
            final(self).spec_initialized(),
            final(self).spec_transport() == old(self).spec_transport(),
    {
        self.initialized = true;
        Ok(())
    }

    pub fn send_hci_cmd(&self, cmd: &HciCommand) -> (r: BtResult)
        ensures
            r == self.send_result(),
    {
        match self.transport {
            BtTransport::Virtual => Ok(()),
            _ => Err(BtError::HciInitFailed),
        }
    }

    /// Sends HCI Reset.
    pub fn reset(&self) -> (r: BtResult)
        ensures
            r == self.send_result(),
    {
        let cmd = reset_command();
        self.send_hci_cmd(&cmd)
    }

    /// Sends Set Event Mask with every event enabled.
    pub fn set_event_mask(&self) -> (r: BtResult)
        ensures
            r == self.send_result(),
    {
        let cmd = event_mask_command();
        self.send_hci_cmd(&cmd)
    }

    /// Sends Write Local Name; the name must fit in one command.
    pub fn write_local_name(&self, name: &[u8]) -> (r: BtResult)
        requires
            name@.len() <= HCI_PARAMS,
        ensures
            r == self.send_result(),
    {
        let cmd = local_name_command(name);
        self.send_hci_cmd(&cmd)
    }

    pub fn le_set_advertising_enable(&self, enable: bool) -> (r: BtResult)
        ensures
            r == self.send_result(),
    {
        let cmd = adv_enable_command(enable);
        self.send_hci_cmd(&cmd)
    }

    /// Sends LE Set Advertising Data; the length byte and the data must fit
    /// in one command.
    pub fn le_set_advertising_data(&self, data: &[u8]) -> (r: BtResult)
        requires
            data@.len() < HCI_PARAMS,
        ensures
            r == self.send_result(),
    {
        let cmd = adv_data_command(data);
        self.send_hci_cmd(&cmd)
    }

    pub fn le_scan(&self, enable: bool, passive: bool) -> (r: BtResult)
        ensures
            r == self.send_result(),
    {
        let cmd = scan_enable_command(enable, passive);
        self.send_hci_cmd(&cmd)
    }

    /// Connections are not supported.
    pub fn create_connection(&mut self, addr: &BdAddr) -> (r: BtResult)
        ensures
            r == Err::<(), BtError>(BtError::ConnectionFailed),
            final(self).spec_transport() == old(self).spec_transport(),
            final(self).spec_initialized() == old(self).spec_initialized(),
    {
        Err(BtError::ConnectionFailed)
    }

    pub fn disconnect(&self, reason: u8) -> (r: BtResult)
        ensures
            r is Ok,
    {
        Ok(())
    }

    pub fn set_scan_params(&self) -> (r: BtResult)
        ensures
            r == self.send_result(),
    {
        let cmd = scan_params_command();
        self.send_hci_cmd(&cmd)
    }
}

} // verus!
