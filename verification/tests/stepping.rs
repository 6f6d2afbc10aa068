use is31fl3731::{Action, CharlieBonnet, Sequence, Step, IS31FL3731};

/// A bus that records what it is asked to do and fails at a chosen write.
struct Bus {
    seen: Vec<Action>,
    fails_at: Option<usize>,
}

impl Bus {
    fn sound() -> Bus {
        Bus { seen: Vec::new(), fails_at: None }
    }

    fn failing_at(at: usize) -> Bus {
        Bus { seen: Vec::new(), fails_at: Some(at) }
    }

    fn perform(&mut self, action: Action) -> Result<(), usize> {
        let at = self.seen.len();
        self.seen.push(action);
        if self.fails_at == Some(at) {
            Err(at)
        } else {
            Ok(())
        }
    }
}

fn run(
    driver: &mut IS31FL3731<CharlieBonnet>,
    mut seq: Sequence,
    bus: &mut Bus,
) -> Result<(), usize> {
    let mut step = match seq.current() {
        Some(action) => Step::Perform(action),
        None => Step::Finished(Ok(())),
    };
    loop {
        match step {
            Step::Perform(action) => {
                let outcome = bus.perform(action);
                step = driver.advance(&mut seq, outcome);
            }
            Step::Finished(result) => {
                assert!(seq.is_finished());
                assert_eq!(seq.current(), None);
                return result;
            }
        }
    }
}

#[test]
fn a_sound_bus_sees_the_whole_script() {
    let mut driver = CharlieBonnet::configure();
    let seq = driver.fill(10, Some(true), 0);
    let script = seq.actions().clone();
    let mut bus = Bus::sound();
    assert_eq!(run(&mut driver, seq, &mut bus), Ok(()));
    assert_eq!(bus.seen, script);
}

#[test]
fn a_new_sequence_starts_at_its_first_action() {
    let driver = CharlieBonnet::configure();
    let seq = driver.reset();
    assert_eq!(seq.settled(), 0);
    assert!(!seq.is_finished());
    assert_eq!(
        seq.current(),
        Some(Action::Write { address: 0x74, register: 0xFD, value: 0x0B, count: 1 })
    );
}

#[test]
fn advance_hands_out_the_actions_one_by_one() {
    let mut driver = CharlieBonnet::configure();
    let mut seq = driver.reset();
    let script = seq.actions().clone();
    for at in 1..script.len() {
        let step = driver.advance::<u8>(&mut seq, Ok(()));
        assert_eq!(step, Step::Perform(script[at]));
        assert_eq!(seq.settled(), at);
        assert_eq!(seq.current(), Some(script[at]));
    }
    assert_eq!(driver.advance::<u8>(&mut seq, Ok(())), Step::Finished(Ok(())));
    assert_eq!(seq.settled(), 5);
    assert!(seq.is_finished());
}

#[test]
fn a_failure_ends_the_operation_at_once() {
    for at in 0..43 {
        let mut driver = CharlieBonnet::configure();
        let seq = driver.fill(10, Some(false), 4);
        let script = seq.actions().clone();
        let mut bus = Bus::failing_at(at);
        assert_eq!(run(&mut driver, seq, &mut bus), Err(at));
        assert_eq!(bus.seen, script[..at + 1].to_vec());
    }
}

#[test]
fn a_failure_in_setup_stops_setup() {
    for at in [0usize, 1, 3, 4, 5, 6, 7, 50, 86, 400, 638, 640, 642] {
        let mut driver = CharlieBonnet::configure();
        let seq = driver.setup();
        let script = seq.actions().clone();
        let mut bus = Bus::failing_at(at);
        assert_eq!(run(&mut driver, seq, &mut bus), Err(at));
        assert_eq!(bus.seen.len(), at + 1);
        assert_eq!(bus.seen, script[..at + 1].to_vec());
    }
}

#[test]
fn a_failure_in_reset_leaves_the_chip_asleep() {
    let mut driver = CharlieBonnet::configure();
    let seq = driver.reset();
    let mut bus = Bus::failing_at(3);
    assert_eq!(run(&mut driver, seq, &mut bus), Err(3));
    assert_eq!(
        bus.seen,
        vec![
            Action::Write { address: 0x74, register: 0xFD, value: 0x0B, count: 1 },
            Action::Write { address: 0x74, register: 0x0A, value: 0, count: 1 },
            Action::DelayMs { ms: 10 },
            Action::Write { address: 0x74, register: 0xFD, value: 0x0B, count: 1 },
        ]
    );
}

#[test]
fn after_a_failure_nothing_is_handed_out() {
    let mut driver = CharlieBonnet::configure();
    let mut seq = driver.setup();
    assert_eq!(driver.advance(&mut seq, Err("nack")), Step::Finished(Err("nack")));
    assert!(seq.is_finished());
    assert_eq!(seq.current(), None);
    assert_eq!(seq.settled(), 643);
    assert_eq!(driver.advance::<&str>(&mut seq, Ok(())), Step::Finished(Ok(())));
    assert_eq!(driver.advance(&mut seq, Err("late")), Step::Finished(Err("late")));
    assert_eq!(seq.current(), None);
}

#[test]
fn frame_is_taken_when_its_write_succeeded() {
    let mut driver = CharlieBonnet::configure();
    let mut seq = driver.frame(5);
    assert_eq!(driver.frame, 0);
    let step = driver.advance::<u8>(&mut seq, Ok(()));
    assert_eq!(
        step,
        Step::Perform(Action::Write { address: 0x74, register: 0x01, value: 5, count: 1 })
    );
    assert_eq!(driver.frame, 0);
    assert_eq!(driver.advance::<u8>(&mut seq, Ok(())), Step::Finished(Ok(())));
    assert_eq!(driver.frame, 5);
}

#[test]
fn frame_is_kept_when_the_bank_select_fails() {
    let mut driver = CharlieBonnet::configure();
    driver.frame = 2;
    let seq = driver.frame(5);
    let mut bus = Bus::failing_at(0);
    assert_eq!(run(&mut driver, seq, &mut bus), Err(0));
    assert_eq!(driver.frame, 2);
}

#[test]
fn frame_is_kept_when_its_write_fails() {
    let mut driver = CharlieBonnet::configure();
    driver.frame = 2;
    let seq = driver.frame(5);
    let mut bus = Bus::failing_at(1);
    assert_eq!(run(&mut driver, seq, &mut bus), Err(1));
    assert_eq!(driver.frame, 2);
    assert_eq!(bus.seen.len(), 2);
}

#[test]
fn frame_past_the_chip_is_taken_as_it_is() {
    let mut driver = CharlieBonnet::configure();
    let seq = driver.frame(9);
    assert_eq!(run(&mut driver, seq, &mut Bus::sound()), Ok(()));
    assert_eq!(driver.frame, 9);
}

#[test]
fn setup_shows_frame_zero() {
    let mut driver = CharlieBonnet::configure();
    driver.frame = 3;
    let seq = driver.setup();
    let mut bus = Bus::sound();
    assert_eq!(run(&mut driver, seq, &mut bus), Ok(()));
    assert_eq!(driver.frame, 0);
    assert_eq!(driver.address, 0x74);
    assert_eq!(bus.seen.len(), 643);
}

#[test]
fn setup_shows_frame_zero_once_that_write_succeeded() {
    let mut driver = CharlieBonnet::configure();
    driver.frame = 3;
    let seq = driver.setup();
    assert_eq!(run(&mut driver, seq, &mut Bus::failing_at(7)), Err(7));
    assert_eq!(driver.frame, 0);
}

#[test]
fn setup_keeps_the_frame_when_it_fails_before_that_write() {
    for at in 0..7 {
        let mut driver = CharlieBonnet::configure();
        driver.frame = 3;
        let seq = driver.setup();
        assert_eq!(run(&mut driver, seq, &mut Bus::failing_at(at)), Err(at));
        assert_eq!(driver.frame, 3);
    }
}

#[test]
fn fill_and_reset_keep_the_frame() {
    let mut driver = CharlieBonnet::configure();
    driver.frame = 6;
    let seq = driver.fill(1, Some(true), 2);
    assert_eq!(run(&mut driver, seq, &mut Bus::sound()), Ok(()));
    assert_eq!(driver.frame, 6);
    let seq = driver.reset();
    assert_eq!(run(&mut driver, seq, &mut Bus::sound()), Ok(()));
    assert_eq!(driver.frame, 6);
    let seq = driver.pixel::<usize>(3, 3, 3).expect("on the grid");
    assert_eq!(run(&mut driver, seq, &mut Bus::sound()), Ok(()));
    assert_eq!(driver.frame, 6);
}

#[test]
fn pixel_after_frame_writes_to_the_new_frame() {
    let mut driver = CharlieBonnet::configure();
    let seq = driver.frame(4);
    assert_eq!(run(&mut driver, seq, &mut Bus::sound()), Ok(()));
    let seq = driver.pixel::<usize>(8, 0, 128).expect("on the grid");
    let mut bus = Bus::sound();
    assert_eq!(run(&mut driver, seq, &mut bus), Ok(()));
    assert_eq!(
        bus.seen,
        vec![
            Action::Write { address: 0x74, register: 0xFD, value: 4, count: 1 },
            Action::Write { address: 0x74, register: 0x24 + 31, value: 128, count: 1 },
        ]
    );
}
