//! The absolute rotary encoder: its bus commands, and the way from a reply
//! word to the rotor's mechanical and electrical angle.

use vstd::prelude::*;
use crate::error::{Error, OFFLINE_REPLY};
use crate::math::{norm_rads, spec_norm_rads, PI2};
use crate::spi::Transfers;

verus! {

/// The fourteen bits of a reply that carry the position.
pub const POS_MAX_U16: u16 = 0x3FFF;

/// Positions in one turn of the encoder.
pub const POS_STEPS: i64 = 16384;

/// The registers of the encoder that can be read.
#[derive(Clone, Copy, Debug, PartialEq, Eq, Structural)]
pub enum ReadCommand {
    Errors,
    Diagnostics,
    Magnitude,
    Angle,
}

impl ReadCommand {
    /// The frame that selects the register.
    pub open spec fn spec_frame(self) -> u16 {
        match self {
            ReadCommand::Errors => 0x4001,
            ReadCommand::Diagnostics => 0x7FFD,
            ReadCommand::Magnitude => 0x7FFE,
            ReadCommand::Angle => 0xFFFF,
        }
    }

    pub fn frame(self) -> (r: u16)
        ensures
            r == self.spec_frame(),
    {
        match self {
            ReadCommand::Errors => 0x4001,
            ReadCommand::Diagnostics => 0x7FFD,
            ReadCommand::Magnitude => 0x7FFE,
            ReadCommand::Angle => 0xFFFF,
        }
    }
}

/// What can be put on the encoder's bus. The encoder has no register that the
/// controller writes.
#[derive(Clone, Copy, Debug, PartialEq, Eq, Structural)]
pub enum Command {
    Nop,
    Read(ReadCommand),
}

impl Command {
    /// The frame that carries the command.
    pub open spec fn spec_frame(self) -> u16 {
        match self {
            Command::Nop => 0,
            Command::Read(rc) => rc.spec_frame(),
        }
    }

    pub fn frame(self) -> (r: u16)
        ensures
            r == self.spec_frame(),
    {
        match self {
            Command::Nop => 0,
            Command::Read(rc) => rc.frame(),
        }
    }
}

/// The angle that a position stands for: the position's share of a full turn,
/// rounded down.
pub open spec fn spec_raw_to_rads(raw: u16) -> int {
    (raw as int * PI2 as int) / (POS_STEPS as int)
}

/// Converts a position to an angle.
pub fn raw_to_rads(raw: u16) -> (r: i64)
    ensures
        r == spec_raw_to_rads(raw),
        raw <= POS_MAX_U16 ==> 0 <= r < PI2,
{
    (raw as i64 * PI2) / POS_STEPS
}

/// The mechanical angle that a reply stands for, measured from `offset`.
pub open spec fn spec_absolute_angle(offset: int, reply: u16) -> int {
    spec_norm_rads(spec_raw_to_rads(reply & POS_MAX_U16) - offset)
}

/// The electrical angle at mechanical angle `absolute` on a rotor with
/// `pairs` pole pairs: the position inside the pole pair's share of the turn,
/// stretched so that the share spans a full turn. Zero without pole pairs.
pub open spec fn spec_phase_angle(pairs: u32, absolute: int) -> int {
    if pairs == 0 {
        0
    } else {
        (absolute % (PI2 as int / pairs as int)) * pairs
    }
}

/// The frames that a read of `read_command` puts on the bus when
/// `last_command` went over it before. The encoder answers a frame with the
/// register that the frame before it selected, so a register that was not
/// selected last is selected once more before its value is taken.
pub open spec fn spec_read_frames(last_command: Command, read_command: ReadCommand) -> Seq<u16> {
    if last_command == Command::Read(read_command) {
        seq![read_command.spec_frame()]
    } else {
        seq![read_command.spec_frame(), read_command.spec_frame()]
    }
}

/// The encoder as the controller knows it.
#[derive(Clone, Copy, Debug, PartialEq, Eq, Structural)]
pub struct PositionSensor {
    /// Pole pairs of the rotor.
    pub num_magnet_pairs: u32,
    /// The raw angle at which the rotor stands at mechanical zero.
    pub offset: i64,
    /// The command whose transfer went over the bus last.
    pub last_command: Command,
}

impl PositionSensor {
    /// A sensor with no offset, before any transfer.
    pub fn new(num_magnet_pairs: u32) -> (r: PositionSensor)
        ensures
            r == (PositionSensor { num_magnet_pairs, offset: 0, last_command: Command::Nop }),
    {
        PositionSensor { num_magnet_pairs, offset: 0, last_command: Command::Nop }
    }

    /// Installs the calibrated zero.
    pub fn set_offset(&mut self, offset: i64)
        ensures
            *final(self) == (PositionSensor { offset, ..*old(self) }),
    {
        self.offset = offset;
    }

    pub fn get_offset(&self) -> (r: i64)
        ensures
            r == self.offset,
    {
        self.offset
    }

    /// Records the transfer of `command` and returns its frame.
    pub fn send(&mut self, command: Command) -> (r: u16)
        ensures
            r == command.spec_frame(),
            *final(self) == (PositionSensor { last_command: command, ..*old(self) }),
    {
        self.last_command = command;
        command.frame()
    }

    /// The transfers that fetch the value of a register, recorded as done.
    /// The reply to the last of them is that value.
    pub fn read(&mut self, read_command: ReadCommand) -> (r: Transfers)
        ensures
            r@ == spec_read_frames(old(self).last_command, read_command),
            *final(self) == (PositionSensor {
                last_command: Command::Read(read_command),
                ..*old(self)
            }),
    {
        let command_previously_sent = match self.last_command {
            Command::Nop => false,
            Command::Read(rc) => rc == read_command,
        };
        let mut count: usize = 1;
        if !command_previously_sent {
            self.send(Command::Read(read_command));
            count = 2;
        }
        let frame = self.send(Command::Read(read_command));
        let transfers = Transfers { frame, count };
        assert(transfers@ =~= spec_read_frames(old(self).last_command, read_command));
        transfers
    }

    /// What `read_absolute_angle` returns.
    pub open spec fn spec_read_absolute_angle(&self, reply: u16) -> Result<i64, Error> {
        if reply == OFFLINE_REPLY {
            Err(Error::PositionSensorOffline)
        } else {
            Ok(spec_absolute_angle(self.offset as int, reply) as i64)
        }
    }

    /// The mechanical angle in a reply to `ReadCommand::Angle`: the position
    /// bits as an angle, less the offset, in `[0, PI2)`. An all-ones reply
    /// means that no sensor answered.
    pub fn read_absolute_angle(&self, reply: u16) -> (r: Result<i64, Error>)
        ensures
            r == self.spec_read_absolute_angle(reply),
            r matches Ok(angle) ==> 0 <= angle < PI2,
    {
        if reply == OFFLINE_REPLY {
            return Err(Error::PositionSensorOffline);
        }
        let rads = raw_to_rads(reply & POS_MAX_U16);
        // The offset is brought into one turn first, so that the difference
        // fits whatever the offset is.
        let offset = norm_rads(self.offset);
        proof {
            assert(reply & POS_MAX_U16 <= POS_MAX_U16) by (bit_vector);
            vstd::arithmetic::div_mod::lemma_sub_mod_noop_right(
                rads as int,
                self.offset as int,
                PI2 as int,
            );
        }
        Ok(norm_rads(rads - offset))
    }

    /// What `read_phase_angle` returns.
    pub open spec fn spec_read_phase_angle(&self, reply: u16) -> Result<i64, Error> {
        match self.spec_read_absolute_angle(reply) {
            Ok(absolute) => Ok(spec_phase_angle(self.num_magnet_pairs, absolute as int) as i64),
            Err(e) => Err(e),
        }
    }

    /// The electrical angle in a reply to `ReadCommand::Angle`, in `[0, PI2)`.
    pub fn read_phase_angle(&self, reply: u16) -> (r: Result<i64, Error>)
        ensures
            r == self.spec_read_phase_angle(reply),
            r matches Ok(angle) ==> 0 <= angle < PI2,
    {
        let absolute = self.read_absolute_angle(reply)?;
        if self.num_magnet_pairs == 0 {
            return Ok(0);
        }
        let pairs = self.num_magnet_pairs as i64;
        let share = PI2 / pairs;
        proof {
            lemma_pole_pair_share(self.num_magnet_pairs);
            lemma_phase_angle_in_turn(self.num_magnet_pairs, absolute as int);
        }
        Ok((absolute % share) * pairs)
    }
}

/// A pole pair's share of the turn is at least one unit of angle, and all
/// the shares together do not exceed the turn.
pub proof fn lemma_pole_pair_share(pairs: u32)
    requires
        pairs > 0,
    ensures
        1 <= PI2 as int / pairs as int,
        (PI2 as int / pairs as int) * pairs <= PI2,
{
    let p = pairs as int;
    let share = PI2 as int / p;
    assert(share * p <= PI2 && share >= 1) by (nonlinear_arith)
        requires
            share == PI2 as int / p,
            0 < p <= 0xFFFF_FFFF,
            PI2 == 6_283_180_000,
    ;
}

/// The electrical angle of a mechanical angle in `[0, PI2)` lies in
/// `[0, PI2)` too, whatever the number of pole pairs.
pub proof fn lemma_phase_angle_in_turn(pairs: u32, absolute: int)
    requires
        0 <= absolute < PI2,
    ensures
        0 <= spec_phase_angle(pairs, absolute) < PI2,
{
    if pairs > 0 {
        let p = pairs as int;
        let share = PI2 as int / p;
        lemma_pole_pair_share(pairs);
        let inside = absolute % share;
        assert(0 <= inside < share);
        assert(0 <= inside * p <= (share - 1) * p) by (nonlinear_arith)
            requires
                0 <= inside <= share - 1,
                p > 0,
        ;
        assert((share - 1) * p < share * p) by (nonlinear_arith)
            requires
                p > 0,
        ;
    }
}

/// Every reply but the all-ones word gives a mechanical and an electrical
/// angle, both in `[0, PI2)`. The mechanical angle is the angle of the
/// reply's position less the offset, normalised; the electrical angle is
/// the mechanical angle inside the pole pair's share of the turn, times the
/// number of pole pairs.
pub proof fn lemma_read_phase_angle(sensor: PositionSensor, reply: u16)
    requires
        reply != OFFLINE_REPLY,
    ensures
        ({
            let position = reply & POS_MAX_U16;
            let absolute = spec_norm_rads(
                (position as int * PI2 as int) / (POS_STEPS as int) - sensor.offset,
            );
            let pairs = sensor.num_magnet_pairs as int;
            &&& position <= POS_MAX_U16
            &&& sensor.spec_read_absolute_angle(reply) == Ok::<i64, Error>(absolute as i64)
            &&& 0 <= absolute < PI2
            &&& sensor.spec_read_phase_angle(reply) matches Ok(phase)
            &&& 0 <= phase < PI2
            &&& pairs > 0 ==> phase == (absolute % (PI2 as int / pairs)) * pairs
        }),
{
    assert(reply & POS_MAX_U16 <= POS_MAX_U16) by (bit_vector);
    let absolute = spec_absolute_angle(sensor.offset as int, reply);
    lemma_phase_angle_in_turn(sensor.num_magnet_pairs, absolute);
}

/// Right after an offset is installed, a reply reads as the angle of its
/// position less that offset, normalised.
pub proof fn lemma_offset_takes_effect(sensor: PositionSensor, offset: i64, reply: u16)
    requires
        reply != OFFLINE_REPLY,
    ensures
        (PositionSensor { offset, ..sensor }).spec_read_absolute_angle(reply) == Ok::<i64, Error>(
            spec_norm_rads(spec_raw_to_rads(reply & POS_MAX_U16) - offset) as i64,
        ),
{
}

/// A register that was read last takes one frame to read again; any other
/// takes two, the first of which selects it.
pub proof fn lemma_read_frames(last_command: Command, first: ReadCommand, second: ReadCommand)
    ensures
        spec_read_frames(Command::Read(first), first).len() == 1,
        first != second ==> spec_read_frames(Command::Read(first), second).len() == 2,
        spec_read_frames(Command::Nop, first).len() == 2,
        spec_read_frames(last_command, first).last() == first.spec_frame(),
{
}

} // verus!
