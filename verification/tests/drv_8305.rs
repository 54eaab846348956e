use bldc::drv_8305::{
    Command, Drv8305, GateDriverFaultFlag, GateDriverFaults, IcFaultFlag, IcFaults,
    OvercurrentFaultFlag, OvercurrentFaults, ReadCommand, WarningFlag, Warnings,
};
use bldc::error::Error;
use bldc::spi::Transfers;

fn flags(warnings: &Warnings) -> Vec<WarningFlag> {
    WarningFlag::all()
        .into_iter()
        .filter(|flag| warnings.has(*flag))
        .collect()
}

const ALL_WARNINGS: [WarningFlag; 10] = [
    WarningFlag::Overtemp,
    WarningFlag::TempOver135C,
    WarningFlag::TempOver125C,
    WarningFlag::TempOver105C,
    WarningFlag::ChargePumpUndervolt,
    WarningFlag::VdsOvercurrent,
    WarningFlag::PvddOvervolt,
    WarningFlag::PvddUndervolt,
    WarningFlag::TempOver175C,
    WarningFlag::Fault,
];

#[test]
fn driver_frames() {
    assert_eq!(ReadCommand::Warnings.opcode(), 0b10001);
    assert_eq!(ReadCommand::OvercurrentFaults.opcode(), 0b10010);
    assert_eq!(ReadCommand::IcFaults.opcode(), 0b10011);
    assert_eq!(ReadCommand::GateDriverFaults.opcode(), 0b00100);
    assert_eq!(ReadCommand::Warnings.frame(), 0b10001 << 11);
    assert_eq!(ReadCommand::OvercurrentFaults.frame(), 0b10010 << 11);
    assert_eq!(ReadCommand::IcFaults.frame(), 0b10011 << 11);
    assert_eq!(ReadCommand::GateDriverFaults.frame(), 0b00100 << 11);
    assert_eq!(Command::Nop.frame(), 0);
    assert_eq!(Command::Read(ReadCommand::Warnings).frame(), 0x8800);
}

#[test]
fn new_driver_has_its_gates_off() {
    let drv = Drv8305::new();
    assert!(!drv.en_gate);
    assert_eq!(drv.last_command, Command::Nop);
}

#[test]
fn gate_line_follows_the_commands() {
    let mut drv = Drv8305::new();
    drv.enable_gate();
    assert!(drv.en_gate);
    drv.enable_gate();
    assert!(drv.en_gate);
    drv.disable_gate();
    assert!(!drv.en_gate);
    assert_eq!(drv.last_command, Command::Nop);
}

#[test]
fn driver_read_selects_a_register_once() {
    let mut drv = Drv8305::new();
    assert_eq!(drv.read(ReadCommand::Warnings), Transfers { frame: 0x8800, count: 2 });
    assert_eq!(drv.last_command, Command::Read(ReadCommand::Warnings));
    assert_eq!(drv.read(ReadCommand::Warnings), Transfers { frame: 0x8800, count: 1 });
    assert_eq!(drv.read(ReadCommand::IcFaults), Transfers { frame: 0x9800, count: 2 });
    assert_eq!(drv.read(ReadCommand::IcFaults), Transfers { frame: 0x9800, count: 1 });
    assert_eq!(drv.read(ReadCommand::Warnings), Transfers { frame: 0x8800, count: 2 });
}

#[test]
fn driver_send_records_the_command() {
    let mut drv = Drv8305::new();
    assert_eq!(drv.send(Command::Read(ReadCommand::GateDriverFaults)), 0x2000);
    assert_eq!(drv.read(ReadCommand::GateDriverFaults), Transfers { frame: 0x2000, count: 1 });
    assert_eq!(drv.send(Command::Nop), 0);
    assert_eq!(drv.last_command, Command::Nop);
    assert_eq!(drv.read(ReadCommand::GateDriverFaults), Transfers { frame: 0x2000, count: 2 });
}

#[test]
fn typed_reads_ask_for_their_register() {
    let mut drv = Drv8305::new();
    assert_eq!(drv.read_warnings(), Transfers { frame: 0x8800, count: 2 });
    assert_eq!(drv.read_warnings(), Transfers { frame: 0x8800, count: 1 });
    assert_eq!(drv.read_overcurrent_faults(), Transfers { frame: 0x9000, count: 2 });
    assert_eq!(drv.read_ic_faults(), Transfers { frame: 0x9800, count: 2 });
    assert_eq!(drv.read_gate_driver_faults(), Transfers { frame: 0x2000, count: 2 });
    assert_eq!(drv.read_gate_driver_faults(), Transfers { frame: 0x2000, count: 1 });
    assert!(!drv.en_gate);
}

#[test]
fn warning_bits() {
    let bits = [0u16, 1, 2, 3, 4, 5, 6, 7, 8, 10];
    for (flag, bit) in ALL_WARNINGS.iter().zip(bits.iter()) {
        assert_eq!(flag.bit(), *bit);
        assert_eq!(flag.mask(), 1 << *bit);
    }
    assert_eq!(WarningFlag::all(), ALL_WARNINGS);
}

#[test]
fn warning_lines() {
    let lines = [
        "Overtemp",
        "Temp over 135 C",
        "Temp over 125 C",
        "Temp over 105 C",
        "Charge pump undervolt",
        "VDS overcurrent",
        "PVDD overvolt",
        "PVDD undervolt",
        "Temp over 175 C",
        "FAULT",
    ];
    for (flag, line) in ALL_WARNINGS.iter().zip(lines.iter()) {
        assert_eq!(flag.line(), *line);
    }
}

#[test]
fn decoding_a_word_twice_gives_the_same_flags() {
    for data in [0u16, 1, 0x0400, 0x05FF, 0x1234, 0xFFFE] {
        let first = Warnings::decode(data).unwrap();
        let second = Warnings::decode(data).unwrap();
        assert_eq!(first, second);
        assert_eq!(flags(&first), flags(&second));
        for flag in ALL_WARNINGS {
            assert_eq!(first.has(flag), second.has(flag));
            assert_eq!(first.has(flag), data & flag.mask() != 0);
        }
    }
}

#[test]
fn decoding_zero_gives_no_flag() {
    let warnings = Warnings::decode(0).unwrap();
    assert!(warnings.ok());
    assert_eq!(warnings.data, 0);
    assert_eq!(flags(&warnings), vec![]);
    for flag in ALL_WARNINGS {
        assert!(!warnings.has(flag));
    }
}

#[test]
fn decoding_all_ones_is_an_absent_driver() {
    assert_eq!(Warnings::decode(0xFFFF), Err(Error::Drv8305Offline));
    assert_eq!(OvercurrentFaults::decode(0xFFFF), Err(Error::Drv8305Offline));
    assert_eq!(IcFaults::decode(0xFFFF), Err(Error::Drv8305Offline));
    assert_eq!(GateDriverFaults::decode(0xFFFF), Err(Error::Drv8305Offline));
    assert_eq!(Error::Drv8305Offline.message(), "Drv8305 offline");
    assert_eq!(Error::PositionSensorOffline.message(), "Position sensor offline");
}

#[test]
fn warnings_come_out_from_the_lowest_bit_up() {
    let warnings = Warnings::decode(0b0000_0101_0010_0001).unwrap();
    assert!(!warnings.ok());
    assert_eq!(
        flags(&warnings),
        vec![
            WarningFlag::Overtemp,
            WarningFlag::VdsOvercurrent,
            WarningFlag::TempOver175C,
            WarningFlag::Fault
        ]
    );
    assert_eq!(flags(&Warnings::decode(0x05FF).unwrap()), ALL_WARNINGS.to_vec());
    assert_eq!(flags(&Warnings::decode(0xFFFE).unwrap()).len(), 9);
}

#[test]
fn a_word_with_unused_bits_alone_is_not_ok_and_has_no_flag() {
    let warnings = Warnings::decode(0b0000_0010_0000_0000).unwrap();
    assert!(!warnings.ok());
    assert_eq!(flags(&warnings), vec![]);
}

#[test]
fn overcurrent_fault_bits() {
    let flags = [
        (OvercurrentFaultFlag::SenseA, 0u16),
        (OvercurrentFaultFlag::SenseB, 1),
        (OvercurrentFaultFlag::SenseC, 2),
        (OvercurrentFaultFlag::MosfetLowC, 5),
        (OvercurrentFaultFlag::MosfetHighC, 6),
        (OvercurrentFaultFlag::MosfetLowB, 7),
        (OvercurrentFaultFlag::MosfetHighB, 8),
        (OvercurrentFaultFlag::MosfetLowA, 9),
        (OvercurrentFaultFlag::MosfetHighA, 10),
    ];
    for (flag, bit) in flags {
        assert_eq!(flag.bit(), bit);
        assert_eq!(flag.mask(), 1 << bit);
        let only = OvercurrentFaults::decode(1 << bit).unwrap();
        assert!(!only.ok());
        for (other, _) in flags {
            assert_eq!(only.has(other), other == flag);
        }
    }
    assert!(OvercurrentFaults::decode(0).unwrap().ok());
}

#[test]
fn ic_fault_bits() {
    let flags = [
        (IcFaultFlag::HighSideChargePumpOvervoltAbs, 0u16),
        (IcFaultFlag::HighSideChargePumpOvervolt, 1),
        (IcFaultFlag::HighSideChargePumpUndervolt2, 2),
        (IcFaultFlag::LowSideGateSupply, 4),
        (IcFaultFlag::AvddUndervolt, 5),
        (IcFaultFlag::VregUndervolt, 6),
        (IcFaultFlag::Overtemp, 8),
        (IcFaultFlag::Watchdog, 9),
        (IcFaultFlag::PvddUndervolt2, 10),
    ];
    for (flag, bit) in flags {
        assert_eq!(flag.bit(), bit);
        assert_eq!(flag.mask(), 1 << bit);
        let only = IcFaults::decode(1 << bit).unwrap();
        assert!(!only.ok());
        for (other, _) in flags {
            assert_eq!(only.has(other), other == flag);
        }
    }
    assert!(IcFaults::decode(0).unwrap().ok());
}

#[test]
fn gate_driver_fault_bits() {
    let flags = [
        (GateDriverFaultFlag::LowMosfetC, 5u16),
        (GateDriverFaultFlag::HighMosfetC, 6),
        (GateDriverFaultFlag::LowMosfetB, 7),
        (GateDriverFaultFlag::HighMosfetB, 8),
        (GateDriverFaultFlag::LowMosfetA, 9),
        (GateDriverFaultFlag::HighMosfetA, 10),
    ];
    for (flag, bit) in flags {
        assert_eq!(flag.bit(), bit);
        assert_eq!(flag.mask(), 1 << bit);
        let only = GateDriverFaults::decode(1 << bit).unwrap();
        assert!(!only.ok());
        for (other, _) in flags {
            assert_eq!(only.has(other), other == flag);
        }
    }
    assert!(GateDriverFaults::decode(0).unwrap().ok());
    assert_eq!(GateDriverFaults::read_command(), 0b00100 << 11);
}
