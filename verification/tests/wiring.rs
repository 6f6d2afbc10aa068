use is31fl3731::registers::{COLOR_OFFSET, DEFAULT_ADDRESS, PIXELS};
use is31fl3731::{Action, CharlieBonnet, Error, PixelMap, Sequence};

fn plan(x: u8, y: u8, brightness: u8) -> Result<Sequence, Error<u8>> {
    CharlieBonnet::configure().pixel::<u8>(x, y, brightness)
}

#[test]
fn configure_gives_defaults() {
    let driver = CharlieBonnet::configure();
    assert_eq!(driver.address, 0x74);
    assert_eq!(driver.address, DEFAULT_ADDRESS);
    assert_eq!(driver.frame, 0);
    assert_eq!(driver.width(), 16);
    assert_eq!(driver.height(), 8);
}

#[test]
fn bonnet_grid_is_sixteen_by_eight() {
    assert_eq!(CharlieBonnet.columns(), 16);
    assert_eq!(CharlieBonnet.rows(), 8);
}

#[test]
fn bonnet_left_half_runs_down_its_lines() {
    assert_eq!(CharlieBonnet.locate(0, 0), 23);
    assert_eq!(CharlieBonnet.locate(0, 7), 16);
    assert_eq!(CharlieBonnet.locate(3, 2), 69);
    assert_eq!(CharlieBonnet.locate(7, 0), 135);
    assert_eq!(CharlieBonnet.locate(7, 7), 128);
}

#[test]
fn bonnet_right_half_runs_up_its_lines() {
    assert_eq!(CharlieBonnet.locate(8, 0), 31);
    assert_eq!(CharlieBonnet.locate(8, 7), 24);
    assert_eq!(CharlieBonnet.locate(12, 5), 90);
    assert_eq!(CharlieBonnet.locate(15, 0), 143);
    assert_eq!(CharlieBonnet.locate(15, 7), 136);
}

#[test]
fn bonnet_places_have_their_own_led() {
    let mut seen = vec![false; 256];
    for x in 0..16u8 {
        for y in 0..8u8 {
            let led = CharlieBonnet.locate(x, y);
            assert!(led < PIXELS, "({}, {}) is off the chip: {}", x, y, led);
            assert!(!seen[led as usize], "({}, {}) shares LED {}", x, y, led);
            seen[led as usize] = true;
        }
    }
    assert_eq!(seen.iter().filter(|&&used| used).count(), 128);
}

#[test]
fn pixel_refuses_the_column_past_the_grid() {
    for y in 0..8u8 {
        assert_eq!(plan(16, y, 1).err(), Some(Error::InvalidLocation(16)));
    }
    assert_eq!(plan(255, 0, 1).err(), Some(Error::InvalidLocation(255)));
}

#[test]
fn pixel_refuses_the_row_past_the_grid() {
    for x in 0..16u8 {
        assert_eq!(plan(x, 8, 1).err(), Some(Error::InvalidLocation(8)));
    }
    assert_eq!(plan(0, 200, 1).err(), Some(Error::InvalidLocation(200)));
}

#[test]
fn pixel_names_the_column_when_both_are_off() {
    assert_eq!(plan(16, 8, 1).err(), Some(Error::InvalidLocation(16)));
    assert_eq!(plan(40, 9, 1).err(), Some(Error::InvalidLocation(40)));
}

#[test]
fn pixel_takes_the_last_place_of_the_grid() {
    let seq = plan(15, 7, 200).expect("the corner is on the grid");
    assert_eq!(
        seq.actions(),
        &vec![
            Action::Write { address: 0x74, register: 0xFD, value: 0, count: 1 },
            Action::Write { address: 0x74, register: 0x24 + 136, value: 200, count: 1 },
        ]
    );
}

#[test]
fn pixel_takes_every_place_of_the_grid() {
    for x in 0..16u8 {
        for y in 0..8u8 {
            let seq = plan(x, y, 9).expect("on the grid");
            let actions = seq.actions();
            assert_eq!(actions.len(), 2);
            assert_eq!(
                actions[1],
                Action::Write {
                    address: 0x74,
                    register: COLOR_OFFSET + CharlieBonnet.locate(x, y),
                    value: 9,
                    count: 1,
                }
            );
        }
    }
}

#[test]
fn pixel_writes_to_the_frame_shown() {
    let mut driver = CharlieBonnet::configure();
    driver.frame = 5;
    let seq = driver.pixel::<u8>(0, 0, 77).expect("on the grid");
    assert_eq!(
        seq.actions(),
        &vec![
            Action::Write { address: 0x74, register: 0xFD, value: 5, count: 1 },
            Action::Write { address: 0x74, register: 0x24 + 23, value: 77, count: 1 },
        ]
    );
    assert_eq!(seq.actions()[0].payload(), vec![0xFD, 5]);
    assert_eq!(seq.actions()[1].payload(), vec![0x3B, 77]);
}

#[test]
fn bus_failure_is_wrapped_for_pixel() {
    let wrapped: Error<u8> = Error::from(42u8);
    assert_eq!(wrapped, Error::I2cError(42));
    let wrapped: Error<&str> = "nack".into();
    assert_eq!(wrapped, Error::I2cError("nack"));
}
