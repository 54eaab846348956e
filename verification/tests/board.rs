use bldc::action::{Action, ActionList, Report};
use bldc::bldc::{Bldc, Mode};
use bldc::error::Error;
use bldc::magnet_controller::DutyCommand;
use bldc::math::UNIT;
use bldc::runner::{turn, Event, Turn};
use bldc::spi::Transfers;

/// A driver chip that answers a frame with the register that the frame
/// before it selected.
struct FakeDriver {
    warnings: u16,
    selected: u16,
    frames: Vec<u16>,
    gate: bool,
    started: bool,
}

impl FakeDriver {
    fn send(&mut self, frame: u16) -> u16 {
        let reply = if self.selected == 0x8800 { self.warnings } else { 0 };
        self.selected = frame;
        self.frames.push(frame);
        reply
    }

    fn read(&mut self, transfers: Transfers) -> u16 {
        let mut reply = 0;
        for _ in 0..transfers.count {
            reply = self.send(transfers.frame);
        }
        reply
    }
}

/// An encoder that answers in the same way.
struct FakeEncoder {
    position: u16,
    selected: u16,
    frames: Vec<u16>,
}

impl FakeEncoder {
    fn send(&mut self, frame: u16) -> u16 {
        let reply = if self.selected == 0xFFFF { self.position } else { 0 };
        self.selected = frame;
        self.frames.push(frame);
        reply
    }

    fn read(&mut self, transfers: Transfers) -> u16 {
        let mut reply = 0;
        for _ in 0..transfers.count {
            reply = self.send(transfers.frame);
        }
        reply
    }
}

/// A timer that fails once its budget of writes is used up.
struct FakeTimer {
    duties: (f64, f64, f64),
    writes_left: usize,
}

impl FakeTimer {
    fn write(&mut self, command: DutyCommand) -> Result<(), String> {
        if self.writes_left == 0 {
            return Err("timer inactive".to_string());
        }
        self.writes_left -= 1;
        let scale = command.power_scale as f64 / UNIT as f64;
        let duty = |angle: i64| ((angle as f64 / UNIT as f64).cos() / 2.0 + 0.5) * scale;
        self.duties = (
            duty(command.angle_u),
            duty(command.angle_v),
            duty(command.angle_w),
        );
        Ok(())
    }
}

struct FakeBoard {
    controller: Bldc,
    driver: FakeDriver,
    encoder: FakeEncoder,
    timer: FakeTimer,
    lines: Vec<String>,
    steps_left: usize,
    shut_down: bool,
}

impl FakeBoard {
    fn new(position: u16) -> FakeBoard {
        FakeBoard {
            controller: Bldc::new(20),
            driver: FakeDriver {
                warnings: 0,
                selected: 0,
                frames: vec![],
                gate: false,
                started: false,
            },
            encoder: FakeEncoder {
                position,
                selected: 0,
                frames: vec![],
            },
            timer: FakeTimer {
                duties: (0.0, 0.0, 0.0),
                writes_left: usize::MAX,
            },
            lines: vec![],
            steps_left: usize::MAX,
            shut_down: false,
        }
    }

    fn perform_one(&mut self, action: Action) -> Result<(), String> {
        match action {
            Action::StartDriver => self.driver.started = true,
            Action::EnableGate => self.driver.gate = true,
            Action::DisableGate => self.driver.gate = false,
            Action::Command(command) => self.timer.write(command)?,
            Action::SetOffset(_) => self.lines.push("SET OFFSET".to_string()),
            Action::Report(report) => match report {
                Report::Warning(flag) => self.lines.push(flag.line().to_string()),
                find => {
                    if let Some(angle) = find.angle() {
                        self.lines.push(format!(
                            "{} {} radians",
                            find.label(),
                            angle as f64 / UNIT as f64
                        ));
                    }
                }
            },
        }
        Ok(())
    }

    fn perform(&mut self, actions: &ActionList) -> Result<(), String> {
        for i in 0..actions.len() {
            if let Some(action) = actions.get(i) {
                self.perform_one(action)?;
            }
        }
        Ok(())
    }

    fn step(&mut self) -> Result<(), String> {
        let warnings = self.driver.read(self.controller.read_warnings());
        let reply = if self.controller.reads_encoder(warnings) {
            self.encoder.read(self.controller.read_angle())
        } else {
            0
        };
        let actions = self
            .controller
            .step(warnings, reply)
            .map_err(|e: Error| e.message().to_string())?;
        self.perform(&actions)
    }

    fn safemode(&mut self) {
        let actions = self.controller.safemode();
        for i in 0..actions.len() {
            if let Some(action) = actions.get(i) {
                self.perform_one(action).ok();
            }
        }
    }

    fn should_continue(&mut self) -> Result<bool, String> {
        let go_on = self
            .controller
            .should_continue()
            .map_err(|e| e.message().to_string())?;
        if self.steps_left == 0 {
            return Ok(false);
        }
        self.steps_left -= 1;
        Ok(go_on)
    }

    fn run(&mut self) -> Result<(), String> {
        let mut event = Event::Begun;
        loop {
            event = match turn(event) {
                Turn::Ask => Event::Asked(self.should_continue()),
                Turn::Step => Event::Stepped(self.step()),
                Turn::Shutdown => {
                    self.shut_down = true;
                    return Ok(());
                }
                Turn::Brake(e) => {
                    self.safemode();
                    return Err(e);
                }
            };
        }
    }

    fn in_demo(&self) -> bool {
        matches!(self.controller.mode(), Mode::Demo(_))
    }
}

/// Steps in all from power-up to the first step of the demonstration: one
/// to begin the calibration, one to hold the rotor, three windows of rest
/// and two turns.
const STEPS_TO_DEMO: usize = 1 + 1 + 500 + 6284 + 500 + 6284 + 500;

#[test]
fn board_calibrates_and_reports_what_it_found() {
    let mut board = FakeBoard::new(782);
    board.steps_left = STEPS_TO_DEMO;
    assert_eq!(board.run(), Ok(()));
    assert!(board.shut_down);
    assert!(board.in_demo());
    assert!(board.driver.started);
    assert!(board.driver.gate);
    assert_eq!(board.timer.duties, (0.0, 0.0, 0.0));
    assert_eq!(
        board.lines,
        vec![
            "SET OFFSET",
            "Found zero at 0.29989299 radians",
            "Found forward extent at 0 radians",
            "Found backward extent at 0 radians",
        ]
    );
}

#[test]
fn board_selects_each_register_once() {
    let mut board = FakeBoard::new(782);
    board.steps_left = 1000;
    assert_eq!(board.run(), Ok(()));
    // The warning register is selected before the first snapshot and read
    // with one frame from then on.
    assert_eq!(board.driver.frames.len(), 1001);
    assert!(board.driver.frames.iter().all(|frame| *frame == 0x8800));
    // Only the 500 steps of the first settle phase take a sample, and the
    // first of them selects the angle register.
    assert_eq!(board.encoder.frames.len(), 501);
    assert!(board.encoder.frames.iter().all(|frame| *frame == 0xFFFF));
}

#[test]
fn board_pauses_on_a_warning_and_resumes() {
    let mut board = FakeBoard::new(782);
    board.steps_left = STEPS_TO_DEMO + 100;
    assert_eq!(board.run(), Ok(()));
    assert!(board.in_demo());
    assert!(board.driver.gate);
    let duties = board.timer.duties;
    assert!(duties.0 > 0.0);
    let lines = board.lines.len();
    let samples = board.encoder.frames.len();

    board.driver.warnings = 1;
    board.steps_left = 1;
    assert_eq!(board.run(), Ok(()));
    assert!(board.controller.is_recovering());
    assert!(!board.driver.gate);
    assert_eq!(board.lines[lines..], ["Overtemp"]);
    assert_eq!(board.timer.duties, duties);
    assert_eq!(board.encoder.frames.len(), samples);

    board.driver.warnings = 0;
    board.steps_left = 1;
    assert_eq!(board.run(), Ok(()));
    assert!(!board.controller.is_recovering());
    assert!(board.in_demo());
    assert_eq!(board.lines.len(), lines + 1);
    assert!(board.timer.duties.0 > duties.0);
    assert_eq!(board.encoder.frames.len(), samples + 1);
}

#[test]
fn board_brakes_when_the_driver_is_gone() {
    let mut board = FakeBoard::new(782);
    board.steps_left = STEPS_TO_DEMO + 100;
    assert_eq!(board.run(), Ok(()));
    assert!(board.driver.gate);

    board.driver.warnings = 0xFFFF;
    board.steps_left = 5;
    board.shut_down = false;
    assert_eq!(board.run(), Err("Drv8305 offline".to_string()));
    assert_eq!(board.steps_left, 4);
    assert!(!board.shut_down);
    assert!(!board.driver.gate);
    assert_eq!(board.timer.duties, (0.0, 0.0, 0.0));
    assert!(board.in_demo());
}

#[test]
fn board_brakes_when_the_encoder_is_gone() {
    let mut board = FakeBoard::new(782);
    board.steps_left = 100;
    assert_eq!(board.run(), Ok(()));
    board.encoder.position = 0xFFFF;
    board.steps_left = 5;
    assert_eq!(board.run(), Err("Position sensor offline".to_string()));
    assert!(!board.driver.gate);
    assert_eq!(board.timer.duties, (0.0, 0.0, 0.0));
}

#[test]
fn board_brakes_when_the_timer_fails() {
    let mut board = FakeBoard::new(782);
    // The hold at the start is the only write that goes through; the first
    // step of the forward turn fails, and so does the brake's own write.
    board.timer.writes_left = 1;
    board.steps_left = 1000;
    assert_eq!(board.run(), Err("timer inactive".to_string()));
    assert_eq!(board.steps_left, 1000 - 503);
    assert!(!board.driver.gate);
    assert!(!board.shut_down);
}
