use bldc::error::Error;
use bldc::runner::{turn, Event, Turn};

fn name(t: Turn<Error>) -> String {
    match t {
        Turn::Ask => "ask".to_string(),
        Turn::Step => "step".to_string(),
        Turn::Shutdown => "shutdown".to_string(),
        Turn::Brake(e) => format!("brake: {}", e.message()),
    }
}

#[test]
fn loop_asks_before_each_step() {
    assert_eq!(name(turn(Event::Begun)), "ask");
    assert_eq!(name(turn(Event::Asked(Ok(true)))), "step");
    assert_eq!(name(turn(Event::Stepped(Ok(())))), "ask");
}

#[test]
fn loop_shuts_down_on_the_answer_no() {
    assert_eq!(name(turn(Event::Asked(Ok(false)))), "shutdown");
}

#[test]
fn loop_brakes_on_a_failure() {
    assert_eq!(
        name(turn(Event::Asked(Err(Error::Drv8305Offline)))),
        "brake: Drv8305 offline"
    );
    assert_eq!(
        name(turn(Event::Stepped(Err(Error::PositionSensorOffline)))),
        "brake: Position sensor offline"
    );
}

#[test]
fn loop_runs_a_program_until_it_fails() {
    // A program that goes on for three steps and fails in the fourth.
    let mut steps = 0;
    let mut braked = None;
    let mut event: Event<Error> = Event::Begun;
    loop {
        event = match turn(event) {
            Turn::Ask => Event::Asked(Ok(true)),
            Turn::Step => {
                steps += 1;
                Event::Stepped(if steps == 4 {
                    Err(Error::Drv8305Offline)
                } else {
                    Ok(())
                })
            }
            Turn::Shutdown => break,
            Turn::Brake(e) => {
                braked = Some(e);
                break;
            }
        };
    }
    assert_eq!(steps, 4);
    assert_eq!(braked, Some(Error::Drv8305Offline));
}
