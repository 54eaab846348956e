//! The driver of the gates: its bus commands, its enable line, and the four status
//! registers with the flags that each of them carries.

use vstd::prelude::*;
use crate::error::{Error, OFFLINE_REPLY};
use crate::spi::Transfers;

verus! {

/// The status registers of the driver.
#[derive(Clone, Copy, Debug, PartialEq, Eq, Structural)]
pub enum ReadCommand {
    Warnings,
    OvercurrentFaults,
    IcFaults,
    GateDriverFaults,
}

impl ReadCommand {
    /// The five-bit code of the register.
    pub open spec fn spec_opcode(self) -> u16 {
        match self {
            ReadCommand::Warnings => 0b10001,
            ReadCommand::OvercurrentFaults => 0b10010,
            ReadCommand::IcFaults => 0b10011,
            ReadCommand::GateDriverFaults => 0b00100,
        }
    }

    pub fn opcode(self) -> (r: u16)
        ensures
            r == self.spec_opcode(),
    {
        match self {
            ReadCommand::Warnings => 0b10001,
            ReadCommand::OvercurrentFaults => 0b10010,
            ReadCommand::IcFaults => 0b10011,
            ReadCommand::GateDriverFaults => 0b00100,
        }
    }

    /// The frame that selects the register: the code in the upper five bits,
    /// zeros below.
    pub open spec fn spec_frame(self) -> u16 {
        (self.spec_opcode() * 2048) as u16
    }

    pub fn frame(self) -> (r: u16)
        ensures
            r == self.spec_frame(),
    {
        let opcode = self.opcode();
        assert(opcode << 11 == (opcode * 2048) as u16) by (bit_vector)
            requires
                opcode < 32,
        ;
        opcode << 11
    }
}

/// What can be put on the driver's bus. The controller writes none of the
/// driver's registers.
#[derive(Clone, Copy, Debug, PartialEq, Eq, Structural)]
pub enum Command {
    Nop,
    Read(ReadCommand),
}

impl Command {
    /// The frame that carries the command.
    pub open spec fn spec_frame(self) -> u16 {
        match self {
            Command::Nop => 0,
            Command::Read(rc) => rc.spec_frame(),
        }
    }

    pub fn frame(self) -> (r: u16)
        ensures
            r == self.spec_frame(),
    {
        match self {
            Command::Nop => 0,
            Command::Read(rc) => rc.frame(),
        }
    }
}

/// The frames that a read of `read_command` puts on the bus when
/// `last_command` went over it before. The driver answers a frame with the
/// register that the frame before it selected, so a register that was not
/// selected last is selected once more before its value is taken.
pub open spec fn spec_read_frames(last_command: Command, read_command: ReadCommand) -> Seq<u16> {
    if last_command == Command::Read(read_command) {
        seq![read_command.spec_frame()]
    } else {
        seq![read_command.spec_frame(), read_command.spec_frame()]
    }
}

/// The driver as the controller knows it.
#[derive(Clone, Copy, Debug, PartialEq, Eq, Structural)]
pub struct Drv8305 {
    /// The level that the enable line was last set to: high enables the gates.
    pub en_gate: bool,
    /// The command whose transfer went over the bus last.
    pub last_command: Command,
}

impl Drv8305 {
    /// A driver with its gates off, before any transfer.
    pub fn new() -> (r: Drv8305)
        ensures
            r == (Drv8305 { en_gate: false, last_command: Command::Nop }),
    {
        Drv8305 { en_gate: false, last_command: Command::Nop }
    }

    /// Records that the enable line went high.
    pub fn enable_gate(&mut self)
        ensures
            *final(self) == (Drv8305 { en_gate: true, ..*old(self) }),
    {
        self.en_gate = true;
    }

    /// Records that the enable line went low.
    pub fn disable_gate(&mut self)
        ensures
            *final(self) == (Drv8305 { en_gate: false, ..*old(self) }),
    {
        self.en_gate = false;
    }

    /// Records the transfer of `command` and returns its frame.
    pub fn send(&mut self, command: Command) -> (r: u16)
        ensures
            r == command.spec_frame(),
            *final(self) == (Drv8305 { last_command: command, ..*old(self) }),
    {
        self.last_command = command;
        command.frame()
    }

    /// The transfers that fetch the value of a register, recorded as done.
    /// The reply to the last of them is that value.
    pub fn read(&mut self, read_command: ReadCommand) -> (r: Transfers)
        ensures
            r@ == spec_read_frames(old(self).last_command, read_command),
            *final(self) == (Drv8305 { last_command: Command::Read(read_command), ..*old(self) }),
    {
        let command_previously_sent = match self.last_command {
            Command::Nop => false,
            Command::Read(rc) => rc == read_command,
        };
        let mut count: usize = 1;
        if !command_previously_sent {
            self.send(Command::Read(read_command));
            count = 2;
        }
        let frame = self.send(Command::Read(read_command));
        let transfers = Transfers { frame, count };
        assert(transfers@ =~= spec_read_frames(old(self).last_command, read_command));
        transfers
    }

    /// The transfers that fetch the warning register; `Warnings::decode`
    /// takes the reply to the last.
    pub fn read_warnings(&mut self) -> (r: Transfers)
        ensures
            r@ == spec_read_frames(old(self).last_command, ReadCommand::Warnings),
            *final(self) == (Drv8305 {
                last_command: Command::Read(ReadCommand::Warnings),
                ..*old(self)
            }),
    {
        self.read(ReadCommand::Warnings)
    }

    /// The transfers that fetch the overcurrent register;
    /// `OvercurrentFaults::decode` takes the reply to the last.
    pub fn read_overcurrent_faults(&mut self) -> (r: Transfers)
        ensures
            r@ == spec_read_frames(old(self).last_command, ReadCommand::OvercurrentFaults),
            *final(self) == (Drv8305 {
                last_command: Command::Read(ReadCommand::OvercurrentFaults),
                ..*old(self)
            }),
    {
        self.read(ReadCommand::OvercurrentFaults)
    }

    /// The transfers that fetch the register of faults of the driver chip;
    /// `IcFaults::decode` takes the reply to the last.
    pub fn read_ic_faults(&mut self) -> (r: Transfers)
        ensures
            r@ == spec_read_frames(old(self).last_command, ReadCommand::IcFaults),
            *final(self) == (Drv8305 {
                last_command: Command::Read(ReadCommand::IcFaults),
                ..*old(self)
            }),
    {
        self.read(ReadCommand::IcFaults)
    }

    /// The transfers that fetch the register of faults of the gates;
    /// `GateDriverFaults::decode` takes the reply to the last.
    pub fn read_gate_driver_faults(&mut self) -> (r: Transfers)
        ensures
            r@ == spec_read_frames(old(self).last_command, ReadCommand::GateDriverFaults),
            *final(self) == (Drv8305 {
                last_command: Command::Read(ReadCommand::GateDriverFaults),
                ..*old(self)
            }),
    {
        self.read(ReadCommand::GateDriverFaults)
    }
}

/// A register that was read last takes one frame to read again; any other
/// takes two, the first of which selects it.
pub proof fn lemma_read_frames(last_command: Command, first: ReadCommand, second: ReadCommand)
    ensures
        spec_read_frames(Command::Read(first), first).len() == 1,
        first != second ==> spec_read_frames(Command::Read(first), second).len() == 2,
        spec_read_frames(Command::Nop, first).len() == 2,
        spec_read_frames(last_command, first).last() == first.spec_frame(),
{
}

/// The conditions that the warning register reports.
#[derive(Clone, Copy, Debug, PartialEq, Eq, Structural)]
pub enum WarningFlag {
    Overtemp,
    TempOver135C,
    TempOver125C,
    TempOver105C,
    ChargePumpUndervolt,
    VdsOvercurrent,
    PvddOvervolt,
    PvddUndervolt,
    TempOver175C,
    Fault,
}

impl WarningFlag {
    /// The position of the flag's bit in the register.
    pub open spec fn spec_bit(self) -> u16 {
        match self {
            WarningFlag::Overtemp => 0,
            WarningFlag::TempOver135C => 1,
            WarningFlag::TempOver125C => 2,
            WarningFlag::TempOver105C => 3,
            WarningFlag::ChargePumpUndervolt => 4,
            WarningFlag::VdsOvercurrent => 5,
            WarningFlag::PvddOvervolt => 6,
            WarningFlag::PvddUndervolt => 7,
            WarningFlag::TempOver175C => 8,
            WarningFlag::Fault => 10,
        }
    }

    pub fn bit(self) -> (r: u16)
        ensures
            r == self.spec_bit(),
            r < 16,
    {
        match self {
            WarningFlag::Overtemp => 0,
            WarningFlag::TempOver135C => 1,
            WarningFlag::TempOver125C => 2,
            WarningFlag::TempOver105C => 3,
            WarningFlag::ChargePumpUndervolt => 4,
            WarningFlag::VdsOvercurrent => 5,
            WarningFlag::PvddOvervolt => 6,
            WarningFlag::PvddUndervolt => 7,
            WarningFlag::TempOver175C => 8,
            WarningFlag::Fault => 10,
        }
    }

    /// The register word with the flag's bit alone.
    pub open spec fn spec_mask(self) -> u16 {
        1u16 << self.spec_bit()
    }

    pub fn mask(self) -> (r: u16)
        ensures
            r == self.spec_mask(),
    {
        1u16 << self.bit()
    }

    /// All flags, from the lowest bit up: the order in which they are
    /// reported.
    pub open spec fn spec_all() -> Seq<WarningFlag> {
        seq![
            WarningFlag::Overtemp,
            WarningFlag::TempOver135C,
            WarningFlag::TempOver125C,
            WarningFlag::TempOver105C,
            WarningFlag::ChargePumpUndervolt,
            WarningFlag::VdsOvercurrent,
            WarningFlag::PvddOvervolt,
            WarningFlag::PvddUndervolt,
            WarningFlag::TempOver175C,
            WarningFlag::Fault,
        ]
    }

    pub fn all() -> (r: [WarningFlag; 10])
        ensures
            r@ == Self::spec_all(),
    {
        let r = [
            WarningFlag::Overtemp,
            WarningFlag::TempOver135C,
            WarningFlag::TempOver125C,
            WarningFlag::TempOver105C,
            WarningFlag::ChargePumpUndervolt,
            WarningFlag::VdsOvercurrent,
            WarningFlag::PvddOvervolt,
            WarningFlag::PvddUndervolt,
            WarningFlag::TempOver175C,
            WarningFlag::Fault,
        ];
        assert(r@ =~= Self::spec_all());
        r
    }

    /// The text of `line`.
    pub open spec fn spec_line(self) -> Seq<char> {
        match self {
            WarningFlag::Overtemp => "Overtemp"@,
            WarningFlag::TempOver135C => "Temp over 135 C"@,
            WarningFlag::TempOver125C => "Temp over 125 C"@,
            WarningFlag::TempOver105C => "Temp over 105 C"@,
            WarningFlag::ChargePumpUndervolt => "Charge pump undervolt"@,
            WarningFlag::VdsOvercurrent => "VDS overcurrent"@,
            WarningFlag::PvddOvervolt => "PVDD overvolt"@,
            WarningFlag::PvddUndervolt => "PVDD undervolt"@,
            WarningFlag::TempOver175C => "Temp over 175 C"@,
            WarningFlag::Fault => "FAULT"@,
        }
    }

    /// The diagnostic line that reports the flag.
    pub fn line(self) -> (r: &'static str)
        ensures
            r@ == self.spec_line(),
    {
        match self {
            WarningFlag::Overtemp => "Overtemp",
            WarningFlag::TempOver135C => "Temp over 135 C",
            WarningFlag::TempOver125C => "Temp over 125 C",
            WarningFlag::TempOver105C => "Temp over 105 C",
            WarningFlag::ChargePumpUndervolt => "Charge pump undervolt",
            WarningFlag::VdsOvercurrent => "VDS overcurrent",
            WarningFlag::PvddOvervolt => "PVDD overvolt",
            WarningFlag::PvddUndervolt => "PVDD undervolt",
            WarningFlag::TempOver175C => "Temp over 175 C",
            WarningFlag::Fault => "FAULT",
        }
    }
}

/// A snapshot of the warning register.
#[derive(Clone, Copy, Debug, PartialEq, Eq, Structural)]
pub struct Warnings {
    pub data: u16,
}

impl View for Warnings {
    type V = Set<WarningFlag>;

    /// The flags whose bit is set in the snapshot.
    open spec fn view(&self) -> Set<WarningFlag> {
        Set::new(|flag: WarningFlag| self.data & flag.spec_mask() > 0)
    }
}

impl Warnings {
    /// What `decode` returns.
    pub open spec fn spec_decode(data: u16) -> Result<Warnings, Error> {
        if data == OFFLINE_REPLY {
            Err(Error::Drv8305Offline)
        } else {
            Ok(Warnings { data })
        }
    }

    /// Takes a reply for a snapshot, unless it is the all-ones word of a
    /// driver that is not there.
    pub fn decode(data: u16) -> (r: Result<Warnings, Error>)
        ensures
            r == Self::spec_decode(data),
    {
        if data == OFFLINE_REPLY {
            Err(Error::Drv8305Offline)
        } else {
            Ok(Warnings { data })
        }
    }

    /// Whether the register is all zeros.
    pub fn ok(&self) -> (r: bool)
        ensures
            r == (self.data == 0),
    {
        self.data == 0
    }

    /// Whether `flag` is set.
    pub fn has(&self, flag: WarningFlag) -> (r: bool)
        ensures
            r == self@.contains(flag),
    {
        (self.data & flag.mask()) > 0
    }

    /// The flags that are set, from the lowest bit up.
    pub open spec fn spec_flags(&self) -> Seq<WarningFlag> {
        WarningFlag::spec_all().filter(|flag: WarningFlag| self@.contains(flag))
    }
}

/// Filtering a sequence with one more item filters the sequence and then
/// keeps or drops the item.
pub proof fn lemma_filter_push<A>(s: Seq<A>, item: A, pred: spec_fn(A) -> bool)
    ensures
        s.push(item).filter(pred) == if pred(item) {
            s.filter(pred).push(item)
        } else {
            s.filter(pred)
        },
{
    reveal(Seq::filter);
    assert(s.push(item).drop_last() =~= s);
}

/// A snapshot of zero has no flag and a snapshot with a flag is not zero;
/// the all-ones word is no snapshot.
pub proof fn lemma_decode_warnings(data: u16)
    ensures
        Warnings::spec_decode(0) == Ok::<Warnings, Error>(Warnings { data: 0 }),
        (Warnings { data: 0 })@ == Set::<WarningFlag>::empty(),
        Warnings::spec_decode(OFFLINE_REPLY) == Err::<Warnings, Error>(Error::Drv8305Offline),
        data != OFFLINE_REPLY ==> Warnings::spec_decode(data) == Ok::<Warnings, Error>(
            Warnings { data },
        ),
        forall|flag: WarningFlag| (Warnings { data })@.contains(flag) ==> data != 0,
{
    assert forall|flag: WarningFlag| !(#[trigger] (Warnings { data: 0 })@.contains(flag)) by {
        let mask = flag.spec_mask();
        assert(0u16 & mask == 0) by (bit_vector);
    }
    assert((Warnings { data: 0 })@ =~= Set::<WarningFlag>::empty());
}

/// The overcurrent conditions, by shunt amplifier and by switch.
#[derive(Clone, Copy, Debug, PartialEq, Eq, Structural)]
pub enum OvercurrentFaultFlag {
    SenseA,
    SenseB,
    SenseC,
    MosfetLowC,
    MosfetHighC,
    MosfetLowB,
    MosfetHighB,
    MosfetLowA,
    MosfetHighA,
}

impl OvercurrentFaultFlag {
    /// The position of the flag's bit in the register.
    pub open spec fn spec_bit(self) -> u16 {
        match self {
            OvercurrentFaultFlag::SenseA => 0,
            OvercurrentFaultFlag::SenseB => 1,
            OvercurrentFaultFlag::SenseC => 2,
            OvercurrentFaultFlag::MosfetLowC => 5,
            OvercurrentFaultFlag::MosfetHighC => 6,
            OvercurrentFaultFlag::MosfetLowB => 7,
            OvercurrentFaultFlag::MosfetHighB => 8,
            OvercurrentFaultFlag::MosfetLowA => 9,
            OvercurrentFaultFlag::MosfetHighA => 10,
        }
    }

    pub fn bit(self) -> (r: u16)
        ensures
            r == self.spec_bit(),
            r < 16,
    {
        match self {
            OvercurrentFaultFlag::SenseA => 0,
            OvercurrentFaultFlag::SenseB => 1,
            OvercurrentFaultFlag::SenseC => 2,
            OvercurrentFaultFlag::MosfetLowC => 5,
            OvercurrentFaultFlag::MosfetHighC => 6,
            OvercurrentFaultFlag::MosfetLowB => 7,
            OvercurrentFaultFlag::MosfetHighB => 8,
            OvercurrentFaultFlag::MosfetLowA => 9,
            OvercurrentFaultFlag::MosfetHighA => 10,
        }
    }

    /// The register word with the flag's bit alone.
    pub open spec fn spec_mask(self) -> u16 {
        1u16 << self.spec_bit()
    }

    pub fn mask(self) -> (r: u16)
        ensures
            r == self.spec_mask(),
    {
        1u16 << self.bit()
    }
}

/// A snapshot of the overcurrent register.
#[derive(Clone, Copy, Debug, PartialEq, Eq, Structural)]
pub struct OvercurrentFaults {
    pub data: u16,
}

impl View for OvercurrentFaults {
    type V = Set<OvercurrentFaultFlag>;

    /// The flags whose bit is set in the snapshot.
    open spec fn view(&self) -> Set<OvercurrentFaultFlag> {
        Set::new(|flag: OvercurrentFaultFlag| self.data & flag.spec_mask() > 0)
    }
}

impl OvercurrentFaults {
    /// What `decode` returns.
    pub open spec fn spec_decode(data: u16) -> Result<OvercurrentFaults, Error> {
        if data == OFFLINE_REPLY {
            Err(Error::Drv8305Offline)
        } else {
            Ok(OvercurrentFaults { data })
        }
    }

    /// Takes a reply for a snapshot, unless it is the all-ones word of a
    /// driver that is not there.
    pub fn decode(data: u16) -> (r: Result<OvercurrentFaults, Error>)
        ensures
            r == Self::spec_decode(data),
    {
        if data == OFFLINE_REPLY {
            Err(Error::Drv8305Offline)
        } else {
            Ok(OvercurrentFaults { data })
        }
    }

    /// Whether the register is all zeros.
    pub fn ok(&self) -> (r: bool)
        ensures
            r == (self.data == 0),
    {
        self.data == 0
    }

    /// Whether `flag` is set.
    pub fn has(&self, flag: OvercurrentFaultFlag) -> (r: bool)
        ensures
            r == self@.contains(flag),
    {
        (self.data & flag.mask()) > 0
    }
}

/// The faults of the driver chip itself.
#[derive(Clone, Copy, Debug, PartialEq, Eq, Structural)]
pub enum IcFaultFlag {
    HighSideChargePumpOvervoltAbs,
    HighSideChargePumpOvervolt,
    HighSideChargePumpUndervolt2,
    LowSideGateSupply,
    AvddUndervolt,
    VregUndervolt,
    Overtemp,
    Watchdog,
    PvddUndervolt2,
}

impl IcFaultFlag {
    /// The position of the flag's bit in the register.
    pub open spec fn spec_bit(self) -> u16 {
        match self {
            IcFaultFlag::HighSideChargePumpOvervoltAbs => 0,
            IcFaultFlag::HighSideChargePumpOvervolt => 1,
            IcFaultFlag::HighSideChargePumpUndervolt2 => 2,
            IcFaultFlag::LowSideGateSupply => 4,
            IcFaultFlag::AvddUndervolt => 5,
            IcFaultFlag::VregUndervolt => 6,
            IcFaultFlag::Overtemp => 8,
            IcFaultFlag::Watchdog => 9,
            IcFaultFlag::PvddUndervolt2 => 10,
        }
    }

    pub fn bit(self) -> (r: u16)
        ensures
            r == self.spec_bit(),
            r < 16,
    {
        match self {
            IcFaultFlag::HighSideChargePumpOvervoltAbs => 0,
            IcFaultFlag::HighSideChargePumpOvervolt => 1,
            IcFaultFlag::HighSideChargePumpUndervolt2 => 2,
            IcFaultFlag::LowSideGateSupply => 4,
            IcFaultFlag::AvddUndervolt => 5,
            IcFaultFlag::VregUndervolt => 6,
            IcFaultFlag::Overtemp => 8,
            IcFaultFlag::Watchdog => 9,
            IcFaultFlag::PvddUndervolt2 => 10,
        }
    }

    /// The register word with the flag's bit alone.
    pub open spec fn spec_mask(self) -> u16 {
        1u16 << self.spec_bit()
    }

    pub fn mask(self) -> (r: u16)
        ensures
            r == self.spec_mask(),
    {
        1u16 << self.bit()
    }
}

/// A snapshot of the register of faults of the driver chip.
#[derive(Clone, Copy, Debug, PartialEq, Eq, Structural)]
pub struct IcFaults {
    pub data: u16,
}

impl View for IcFaults {
    type V = Set<IcFaultFlag>;

    /// The flags whose bit is set in the snapshot.
    open spec fn view(&self) -> Set<IcFaultFlag> {
        Set::new(|flag: IcFaultFlag| self.data & flag.spec_mask() > 0)
    }
}

impl IcFaults {
    /// What `decode` returns.
    pub open spec fn spec_decode(data: u16) -> Result<IcFaults, Error> {
        if data == OFFLINE_REPLY {
            Err(Error::Drv8305Offline)
        } else {
            Ok(IcFaults { data })
        }
    }

    /// Takes a reply for a snapshot, unless it is the all-ones word of a
    /// driver that is not there.
    pub fn decode(data: u16) -> (r: Result<IcFaults, Error>)
        ensures
            r == Self::spec_decode(data),
    {
        if data == OFFLINE_REPLY {
            Err(Error::Drv8305Offline)
        } else {
            Ok(IcFaults { data })
        }
    }

    /// Whether the register is all zeros.
    pub fn ok(&self) -> (r: bool)
        ensures
            r == (self.data == 0),
    {
        self.data == 0
    }

    /// Whether `flag` is set.
    pub fn has(&self, flag: IcFaultFlag) -> (r: bool)
        ensures
            r == self@.contains(flag),
    {
        (self.data & flag.mask()) > 0
    }
}

/// The faults of the gates, by switch.
#[derive(Clone, Copy, Debug, PartialEq, Eq, Structural)]
pub enum GateDriverFaultFlag {
    LowMosfetC,
    HighMosfetC,
    LowMosfetB,
    HighMosfetB,
    LowMosfetA,
    HighMosfetA,
}

impl GateDriverFaultFlag {
    /// The position of the flag's bit in the register.
    pub open spec fn spec_bit(self) -> u16 {
        match self {
            GateDriverFaultFlag::LowMosfetC => 5,
            GateDriverFaultFlag::HighMosfetC => 6,
            GateDriverFaultFlag::LowMosfetB => 7,
            GateDriverFaultFlag::HighMosfetB => 8,
            GateDriverFaultFlag::LowMosfetA => 9,
            GateDriverFaultFlag::HighMosfetA => 10,
        }
    }

    pub fn bit(self) -> (r: u16)
        ensures
            r == self.spec_bit(),
            r < 16,
    {
        match self {
            GateDriverFaultFlag::LowMosfetC => 5,
            GateDriverFaultFlag::HighMosfetC => 6,
            GateDriverFaultFlag::LowMosfetB => 7,
            GateDriverFaultFlag::HighMosfetB => 8,
            GateDriverFaultFlag::LowMosfetA => 9,
            GateDriverFaultFlag::HighMosfetA => 10,
        }
    }

    /// The register word with the flag's bit alone.
    pub open spec fn spec_mask(self) -> u16 {
        1u16 << self.spec_bit()
    }

    pub fn mask(self) -> (r: u16)
        ensures
            r == self.spec_mask(),
    {
        1u16 << self.bit()
    }
}

/// A snapshot of the register of faults of the gates.
#[derive(Clone, Copy, Debug, PartialEq, Eq, Structural)]
pub struct GateDriverFaults {
    pub data: u16,
}

impl View for GateDriverFaults {
    type V = Set<GateDriverFaultFlag>;

    /// The flags whose bit is set in the snapshot.
    open spec fn view(&self) -> Set<GateDriverFaultFlag> {
        Set::new(|flag: GateDriverFaultFlag| self.data & flag.spec_mask() > 0)
    }
}

impl GateDriverFaults {
    /// What `decode` returns.
    pub open spec fn spec_decode(data: u16) -> Result<GateDriverFaults, Error> {
        if data == OFFLINE_REPLY {
            Err(Error::Drv8305Offline)
        } else {
            Ok(GateDriverFaults { data })
        }
    }

    /// Takes a reply for a snapshot, unless it is the all-ones word of a
    /// driver that is not there.
    pub fn decode(data: u16) -> (r: Result<GateDriverFaults, Error>)
        ensures
            r == Self::spec_decode(data),
    {
        if data == OFFLINE_REPLY {
            Err(Error::Drv8305Offline)
        } else {
            Ok(GateDriverFaults { data })
        }
    }

    /// Whether the register is all zeros.
    pub fn ok(&self) -> (r: bool)
        ensures
            r == (self.data == 0),
    {
        self.data == 0
    }

    /// Whether `flag` is set.
    pub fn has(&self, flag: GateDriverFaultFlag) -> (r: bool)
        ensures
            r == self@.contains(flag),
    {
        (self.data & flag.mask()) > 0
    }

    /// The frame that selects this register.
    pub fn read_command() -> (r: u16)
        ensures
            r == ReadCommand::GateDriverFaults.spec_frame(),
            r == 0x2000,
    {
        ReadCommand::GateDriverFaults.frame()
    }
}

} // verus!
