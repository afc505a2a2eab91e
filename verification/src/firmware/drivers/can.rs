//! CAN frames and the commands they carry.
//!
//! The payload of a frame is a `heapless::Vec` of at most 64 bytes. Verus does
//! not look inside it: what it holds is named by `payload_bytes`, and the four
//! functions below that touch it are believed, not proved.

use vstd::prelude::*;

verus! {

/// Most bytes that a CAN-FD frame carries.
pub const MAX_DATA_LEN: usize = 64;

/// Node id of a joint that has not been given one.
pub const DEFAULT_NODE_ID: u16 = 0x01;

/// The bytes that a payload holds, first to last.
pub uninterp spec fn payload_bytes(data: heapless::Vec<u8, 64>) -> Seq<u8>;

/// `heapless::Vec::new`: the vector that holds nothing.
#[verifier::external_body]
fn payload_new() -> (data: heapless::Vec<u8, 64>)
    ensures
        payload_bytes(data) == Seq::<u8>::empty(),
{
    heapless::Vec::new()
}

/// `heapless::Vec::extend_from_slice`: appends the items of `other` in order
/// if all of them fit within the capacity; otherwise fails and changes
/// nothing.
#[verifier::external_body]
fn payload_extend(data: &mut heapless::Vec<u8, 64>, other: &[u8]) -> (r: Result<(), ()>)
    ensures
        payload_bytes(*old(data)).len() + other@.len() <= 64 ==> r is Ok && payload_bytes(
            *final(data),
        ) == payload_bytes(*old(data)) + other@,
        payload_bytes(*old(data)).len() + other@.len() > 64 ==> r is Err && payload_bytes(
            *final(data),
        ) == payload_bytes(*old(data)),
{
    data.extend_from_slice(other)
}

/// `len` of the slice that a `heapless::Vec` hands out: the number of items
/// it holds, which never exceeds its capacity.
#[verifier::external_body]
fn payload_len(data: &heapless::Vec<u8, 64>) -> (n: usize)
    ensures
        n == payload_bytes(*data).len(),
        n <= 64,
{
    data.len()
}

/// Indexing of the slice that a `heapless::Vec` hands out: item `i`.
#[verifier::external_body]
fn payload_at(data: &heapless::Vec<u8, 64>, i: usize) -> (b: u8)
    requires
        i < payload_bytes(*data).len(),
    ensures
        b == payload_bytes(*data)[i as int],
{
    data[i]
}

/// Commands that a frame can carry, each with its identifying byte.
#[derive(Clone, Copy, Debug, PartialEq, Eq, Structural)]
pub enum CanCommand {
    /// Set target position (rad * 1000).
    SetPosition,
    /// Set target velocity (rad/s * 1000).
    SetVelocity,
    /// Set target torque (Nm * 1000).
    SetTorque,
    GetStatus,
    GetTelemetry,
    /// Calibrate the encoder.
    Calibrate,
    EmergencyStop,
}

/// The command that byte `value` identifies, if any.
pub open spec fn command_of(value: u8) -> Result<CanCommand, ()> {
    if value == 0x01 {
        Ok(CanCommand::SetPosition)
    } else if value == 0x02 {
        Ok(CanCommand::SetVelocity)
    } else if value == 0x03 {
        Ok(CanCommand::SetTorque)
    } else if value == 0x10 {
        Ok(CanCommand::GetStatus)
    } else if value == 0x11 {
        Ok(CanCommand::GetTelemetry)
    } else if value == 0x20 {
        Ok(CanCommand::Calibrate)
    } else if value == 0xFF {
        Ok(CanCommand::EmergencyStop)
    } else {
        Err(())
    }
}

impl CanCommand {
    /// The byte that identifies the command.
    pub fn id(self) -> (value: u8)
        ensures
            command_of(value) == Ok::<CanCommand, ()>(self),
    {
        match self {
            CanCommand::SetPosition => 0x01,
            CanCommand::SetVelocity => 0x02,
            CanCommand::SetTorque => 0x03,
            CanCommand::GetStatus => 0x10,
            CanCommand::GetTelemetry => 0x11,
            CanCommand::Calibrate => 0x20,
            CanCommand::EmergencyStop => 0xFF,
        }
    }

    /// The command that byte `value` identifies; fails on any other byte.
    pub fn try_from(value: u8) -> (r: Result<CanCommand, ()>)
        ensures
            r == command_of(value),
    {
        match value {
            0x01 => Ok(CanCommand::SetPosition),
            0x02 => Ok(CanCommand::SetVelocity),
            0x03 => Ok(CanCommand::SetTorque),
            0x10 => Ok(CanCommand::GetStatus),
            0x11 => Ok(CanCommand::GetTelemetry),
            0x20 => Ok(CanCommand::Calibrate),
            0xFF => Ok(CanCommand::EmergencyStop),
            _ => Err(()),
        }
    }
}

/// The number that four bytes encode, least significant byte first, read in
/// two's complement.
pub open spec fn le_i32(b0: u8, b1: u8, b2: u8, b3: u8) -> int {
    let unsigned = b0 + 0x100 * b1 + 0x1_0000 * b2 + 0x100_0000 * b3;
    if unsigned <= i32::MAX {
        unsigned
    } else {
        unsigned - 0x1_0000_0000
    }
}

/// A CAN message frame.
#[derive(Debug)]
pub struct CanFrame {
    pub id: u16,
    pub data: heapless::Vec<u8, 64>,
}

impl CanFrame {
    /// The payload of the frame.
    pub open spec fn bytes(&self) -> Seq<u8> {
        payload_bytes(self.data)
    }

    /// The command that the frame carries: the one that its first byte
    /// identifies. A frame without payload carries none.
    pub open spec fn command(&self) -> Result<CanCommand, ()> {
        if self.bytes().len() == 0 {
            Err(())
        } else {
            command_of(self.bytes()[0])
        }
    }

    /// The parameter at `offset`: the four bytes from there on, least
    /// significant first, if the payload holds them.
    pub open spec fn parameter(&self, offset: int) -> Option<i32> {
        if self.bytes().len() < offset + 4 {
            None
        } else {
            Some(
                le_i32(
                    self.bytes()[offset],
                    self.bytes()[offset + 1],
                    self.bytes()[offset + 2],
                    self.bytes()[offset + 3],
                ) as i32,
            )
        }
    }

    /// A frame with identifier `id` and no payload.
    pub fn new(id: u16) -> (f: Self)
        ensures
            f.id == id,
            f.bytes() == Seq::<u8>::empty(),
    {
        CanFrame { id, data: payload_new() }
    }

    /// The frame with `data` appended to its payload, if that fits in 64
    /// bytes; otherwise the frame as it is.
    pub fn with_data(self, data: &[u8]) -> (f: Self)
        ensures
            f.id == self.id,
            self.bytes().len() + data@.len() <= MAX_DATA_LEN ==> f.bytes() == self.bytes() + data@,
            self.bytes().len() + data@.len() > MAX_DATA_LEN ==> f.bytes() == self.bytes(),
    {
        let mut frame = self;
        let _ = payload_extend(&mut frame.data, data);
        frame
    }

    /// The command that the frame carries.
    pub fn parse_command(&self) -> (r: Result<CanCommand, ()>)
        ensures
            r == self.command(),
    {
        if payload_len(&self.data) == 0 {
            return Err(());
        }
        CanCommand::try_from(payload_at(&self.data, 0))
    }

    /// The parameter at `offset`.
    pub fn get_i32(&self, offset: usize) -> (r: Option<i32>)
        ensures
            r == self.parameter(offset as int),
    {
        let len: usize = payload_len(&self.data);
        if len < 4 || offset > len - 4 {
            return None;
        }
        let b0: u8 = payload_at(&self.data, offset);
        let b1: u8 = payload_at(&self.data, offset + 1);
        let b2: u8 = payload_at(&self.data, offset + 2);
        let b3: u8 = payload_at(&self.data, offset + 3);
        let unsigned: u64 = b0 as u64 + 0x100 * (b1 as u64) + 0x1_0000 * (b2 as u64) + 0x100_0000 * (
        b3 as u64);
        if unsigned <= 0x7fff_ffff {
            Some(unsigned as i32)
        } else {
            Some((unsigned as i64 - 0x1_0000_0000) as i32)
        }
    }
}

/// Byte `k`, counted from the least significant, of the two's complement of
/// `x` in 32 bits.
pub open spec fn le_byte(x: int, k: int) -> u8 {
    let unsigned = if x < 0 {
        x + 0x1_0000_0000
    } else {
        x
    };
    if k == 0 {
        (unsigned % 0x100) as u8
    } else if k == 1 {
        ((unsigned / 0x100) % 0x100) as u8
    } else if k == 2 {
        ((unsigned / 0x1_0000) % 0x100) as u8
    } else {
        ((unsigned / 0x100_0000) % 0x100) as u8
    }
}

/// The payload of a telemetry frame: the telemetry command byte, position and
/// velocity in four bytes each, current and voltage in two bytes each, all
/// least significant byte first.
pub open spec fn telemetry_payload(position: i32, velocity: i32, current: i16, voltage: u16) -> Seq<
    u8,
> {
    seq![
        0x11u8,
        le_byte(position as int, 0),
        le_byte(position as int, 1),
        le_byte(position as int, 2),
        le_byte(position as int, 3),
        le_byte(velocity as int, 0),
        le_byte(velocity as int, 1),
        le_byte(velocity as int, 2),
        le_byte(velocity as int, 3),
        le_byte(current as int, 0),
        le_byte(current as int, 1),
        le_byte(voltage as int, 0),
        le_byte(voltage as int, 1),
    ]
}

/// The four bytes of `x`, least significant first.
fn le_bytes_of(x: i32) -> (bytes: [u8; 4])
    ensures
        bytes@ == seq![
            le_byte(x as int, 0),
            le_byte(x as int, 1),
            le_byte(x as int, 2),
            le_byte(x as int, 3),
        ],
        le_i32(bytes@[0], bytes@[1], bytes@[2], bytes@[3]) == x,
{
    let unsigned: u64 = if x < 0 {
        (x as i64 + 0x1_0000_0000) as u64
    } else {
        x as u64
    };
    let bytes: [u8; 4] = [
        (unsigned % 0x100) as u8,
        ((unsigned / 0x100) % 0x100) as u8,
        ((unsigned / 0x1_0000) % 0x100) as u8,
        ((unsigned / 0x100_0000) % 0x100) as u8,
    ];
    assert(bytes@ =~= seq![
        le_byte(x as int, 0),
        le_byte(x as int, 1),
        le_byte(x as int, 2),
        le_byte(x as int, 3),
    ]);
    bytes
}

impl CanFrame {
    /// The answer to a status request from node `node_id`: the status command
    /// byte, the state and the error code.
    pub fn status_frame(node_id: u16, state: u8, error_code: u8) -> (f: Self)
        ensures
            f.id == node_id,
            f.bytes() == seq![0x10u8, state, error_code],
            f.command() == Ok::<CanCommand, ()>(CanCommand::GetStatus),
    {
        let body: [u8; 3] = [0x10, state, error_code];
        let f = CanFrame::new(node_id).with_data(body.as_slice());
        assert(f.bytes() =~= seq![0x10u8, state, error_code]);
        f
    }

    /// The telemetry frame of node `node_id`. Position and velocity read back
    /// from it as the parameters at offsets 1 and 5.
    pub fn telemetry_frame(
        node_id: u16,
        position: i32,
        velocity: i32,
        current: i16,
        voltage: u16,
    ) -> (f: Self)
        ensures
            f.id == node_id,
            f.bytes() == telemetry_payload(position, velocity, current, voltage),
            f.command() == Ok::<CanCommand, ()>(CanCommand::GetTelemetry),
            f.parameter(1) == Some(position),
            f.parameter(5) == Some(velocity),
    {
        let p = le_bytes_of(position);
        let v = le_bytes_of(velocity);
        let c = le_bytes_of(current as i32);
        let u = le_bytes_of(voltage as i32);
        let body: [u8; 13] = [
            0x11,
            p[0],
            p[1],
            p[2],
            p[3],
            v[0],
            v[1],
            v[2],
            v[3],
            c[0],
            c[1],
            u[0],
            u[1],
        ];
        let f = CanFrame::new(node_id).with_data(body.as_slice());
        assert(f.bytes() =~= telemetry_payload(position, velocity, current, voltage));
        f
    }
}

} // verus!
