use is31fl3731::registers::{BLINK_OFFSET, COLOR_OFFSET, ENABLE_OFFSET};
use is31fl3731::{Action, CharlieBonnet};

fn write(register: u8, value: u8) -> Action {
    Action::Write { address: 0x74, register, value, count: 1 }
}

fn bulk(register: u8, value: u8) -> Action {
    Action::Write { address: 0x74, register, value, count: 24 }
}

fn select(bank: u8) -> Action {
    write(0xFD, bank)
}

fn filled(brightness: u8, frame: u8) -> Vec<Action> {
    vec![
        select(frame),
        bulk(0x24, brightness),
        bulk(0x3C, brightness),
        bulk(0x54, brightness),
        bulk(0x6C, brightness),
        bulk(0x84, brightness),
        bulk(0x9C, brightness),
    ]
}

fn masked(frame: u8, first: u8, value: u8) -> Vec<Action> {
    let mut expected = Vec::new();
    for col in 0..18u8 {
        expected.push(select(frame));
        expected.push(write(first + col, value));
    }
    expected
}

#[test]
fn payload_of_a_register_write_is_two_bytes() {
    assert_eq!(write(0x0A, 1).payload(), vec![0x0A, 0x01]);
    assert_eq!(select(0x0B).payload(), vec![0xFD, 0x0B]);
}

#[test]
fn payload_of_a_bulk_write_is_the_register_and_the_run() {
    let mut expected = vec![0x3Cu8];
    expected.extend(vec![200u8; 24]);
    assert_eq!(bulk(0x3C, 200).payload(), expected);
    assert_eq!(bulk(0x3C, 200).payload().len(), 25);
}

#[test]
fn payload_of_an_empty_run_is_the_register() {
    let only = Action::Write { address: 1, register: 9, value: 7, count: 0 };
    assert_eq!(only.payload(), vec![9]);
    let longest = Action::Write { address: 1, register: 9, value: 7, count: 255 };
    assert_eq!(longest.payload().len(), 256);
}

#[test]
fn payload_of_a_pause_is_empty() {
    assert_eq!(Action::DelayMs { ms: 10 }.payload(), Vec::<u8>::new());
}

#[test]
fn fill_without_blink_is_six_bulk_writes() {
    let driver = CharlieBonnet::configure();
    let seq = driver.fill(10, None, 0);
    assert_eq!(seq.actions(), &filled(10, 0));
    assert_eq!(seq.actions().len(), 7);
    for row in 0..6u8 {
        let payload = seq.actions()[1 + row as usize].payload();
        assert_eq!(payload.len(), 25);
        assert_eq!(payload[0], COLOR_OFFSET + row * 24);
        assert!(payload[1..].iter().all(|&byte| byte == 10));
    }
}

#[test]
fn fill_without_blink_leaves_the_blink_registers() {
    let driver = CharlieBonnet::configure();
    for action in driver.fill(255, None, 3).actions() {
        match *action {
            Action::Write { register, count, .. } => {
                let first = register as u16;
                let end = first + count as u16;
                assert!(end <= BLINK_OFFSET as u16 || first >= BLINK_OFFSET as u16 + 18);
            }
            Action::DelayMs { .. } => panic!("filling does not pause"),
        }
    }
}

#[test]
fn fill_selects_the_bank_of_its_frame() {
    let driver = CharlieBonnet::configure();
    for frame in 0..8u8 {
        assert_eq!(driver.fill(1, None, frame).actions(), &filled(1, frame));
    }
}

#[test]
fn fill_sends_a_frame_past_the_chip_as_it_is() {
    let driver = CharlieBonnet::configure();
    assert_eq!(driver.fill(1, None, 200).actions(), &filled(1, 200));
}

#[test]
fn fill_with_blink_sets_all_blink_registers() {
    let driver = CharlieBonnet::configure();
    let seq = driver.fill(7, Some(true), 2);
    let mut expected = filled(7, 2);
    expected.extend(masked(2, BLINK_OFFSET, 0xFF));
    assert_eq!(seq.actions(), &expected);
    assert_eq!(seq.actions().len(), 43);
    assert_eq!(seq.actions()[8].payload(), vec![0x12, 0xFF]);
    assert_eq!(seq.actions()[42].payload(), vec![0x23, 0xFF]);
}

#[test]
fn fill_without_blinking_clears_all_blink_registers() {
    let driver = CharlieBonnet::configure();
    let seq = driver.fill(7, Some(false), 2);
    let mut expected = filled(7, 2);
    expected.extend(masked(2, BLINK_OFFSET, 0x00));
    assert_eq!(seq.actions(), &expected);
    assert_eq!(seq.actions()[8].payload(), vec![0x12, 0x00]);
    assert_eq!(seq.actions()[42].payload(), vec![0x23, 0x00]);
}

#[test]
fn reset_is_sleep_pause_wake() {
    let mut driver = CharlieBonnet::configure();
    let expected = vec![
        select(0x0B),
        write(0x0A, 0),
        Action::DelayMs { ms: 10 },
        select(0x0B),
        write(0x0A, 1),
    ];
    assert_eq!(driver.reset().actions(), &expected);
    driver.frame = 6;
    assert_eq!(driver.reset().actions(), &expected);
}

#[test]
fn frame_is_a_write_to_the_frame_register() {
    let driver = CharlieBonnet::configure();
    assert_eq!(driver.frame(3).actions(), &vec![select(0x0B), write(0x01, 3)]);
}

#[test]
fn frame_sends_a_frame_past_the_chip_as_it_is() {
    let driver = CharlieBonnet::configure();
    assert_eq!(driver.frame(8).actions(), &vec![select(0x0B), write(0x01, 8)]);
    assert_eq!(driver.frame(255).actions(), &vec![select(0x0B), write(0x01, 255)]);
}

#[test]
fn setup_brings_the_chip_up_in_order() {
    let driver = CharlieBonnet::configure();
    let mut expected = vec![
        select(0x0B),
        write(0x0A, 0),
        Action::DelayMs { ms: 10 },
        select(0x0B),
        write(0x00, 0x00),
        select(0x0B),
        write(0x01, 0),
    ];
    for frame in 0..8u8 {
        expected.extend(filled(0, frame));
        expected.extend(masked(frame, BLINK_OFFSET, 0x00));
        expected.extend(masked(frame, ENABLE_OFFSET, 0xFF));
    }
    expected.extend(vec![select(0x0B), write(0x06, 0), select(0x0B), write(0x0A, 1)]);
    let seq = driver.setup();
    assert_eq!(seq.actions().len(), 643);
    assert_eq!(seq.actions(), &expected);
}

#[test]
fn setup_pauses_once_after_the_sleep_write() {
    let driver = CharlieBonnet::configure();
    let seq = driver.setup();
    let pauses: Vec<usize> = seq
        .actions()
        .iter()
        .enumerate()
        .filter(|(_, action)| matches!(action, Action::DelayMs { .. }))
        .map(|(at, _)| at)
        .collect();
    assert_eq!(pauses, vec![2]);
    assert_eq!(seq.actions()[2], Action::DelayMs { ms: 10 });
}

#[test]
fn set_address_moves_every_write() {
    let mut driver = CharlieBonnet::configure();
    driver.set_address(0x77);
    assert_eq!(driver.address, 0x77);
    assert_eq!(driver.frame, 0);
    let sequences = vec![
        driver.fill(1, Some(true), 1),
        driver.setup(),
        driver.reset(),
        driver.frame(2),
        driver.pixel::<u8>(1, 1, 1).expect("on the grid"),
    ];
    for seq in &sequences {
        for action in seq.actions() {
            match *action {
                Action::Write { address, .. } => assert_eq!(address, 0x77),
                Action::DelayMs { ms } => assert_eq!(ms, 10),
            }
        }
    }
}
