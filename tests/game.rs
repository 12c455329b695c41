use tilegame_hal::clock::{timer_compare_interrupt, Clock};
use tilegame_hal::display::Display;
use tilegame_hal::game::{format_u8, get_dir, ContinueState, Game, Position, Tile};
use tilegame_hal::hal::Mcu;
use tilegame_hal::input::Input;
use tilegame_hal::progmem::ByteBundle;
use tilegame_hal::rng::Rng;
use tilegame_hal::tiles;
use tilegame_hal::twi::{BusEvent, SimBus, TWIError, TWI};

#[test]
fn format_u8_gives_three_digits() {
    assert_eq!(format_u8(123), *b"123");
    assert_eq!(format_u8(7), *b"007");
    assert_eq!(format_u8(40), *b"040");
    assert_eq!(format_u8(255), *b"255");
    assert_eq!(format_u8(0), *b"000");
}

#[test]
fn digit_tiles() {
    let five = Game::get_digit_tile(b'5');
    assert_eq!(five.len(), 9);
    for i in 0..9 {
        assert_eq!(five.get(i), tiles::N5[i]);
    }
    let other = Game::get_digit_tile(b'x');
    assert_eq!(other.get(3), tiles::FLOOR[3]);
    assert_eq!(Game::title_screen().len(), 1058);
    assert_eq!(Game::game_over_screen().len(), 1058);
    assert_eq!(Tile::Wall.graphic().get(1), tiles::WALL[1]);
}

#[test]
fn direction_towards_player() {
    assert_eq!(get_dir(5, 7), 1);
    assert_eq!(get_dir(7, 5), 255);
    assert_eq!(get_dir(5, 5), 0);
    assert_eq!(get_dir(0, 255), 1);
}

#[test]
fn new_game_is_empty() {
    let g = Game::new();
    assert_eq!(g.level(), 0);
    assert_eq!(g.player_position(), Position::new(0, 0));
    assert_eq!(g.tile_at(7, 7), Tile::Floor);
    for i in 0..10 {
        assert!(g.enemy(i).is_none());
    }
}

fn check_level(g: &Game, fresh: bool) {
    for i in 0..16u8 {
        assert_eq!(g.tile_at(i, 0), Tile::Wall);
        assert_eq!(g.tile_at(i, 15), Tile::Wall);
        assert_eq!(g.tile_at(0, i), Tile::Wall);
        assert_eq!(g.tile_at(15, i), Tile::Wall);
    }
    let p = g.player_position();
    assert!((1..=14).contains(&p.x) && (1..=14).contains(&p.y));
    let live = (g.level() as usize).min(10);
    for i in 0..10 {
        if fresh {
            assert_eq!(g.enemy(i).is_some(), i < live);
        } else if i >= live {
            assert!(g.enemy(i).is_none());
        }
        if let Some(e) = g.enemy(i) {
            assert!((1..=14).contains(&e.position.x) && (1..=14).contains(&e.position.y));
        }
    }
    let stairs = (0..16u8).flat_map(|y| (0..16u8).map(move |x| (x, y)))
        .filter(|&(x, y)| g.tile_at(x, y) == Tile::Stairs)
        .count();
    if fresh {
        assert_eq!(stairs, 1);
        assert_eq!(g.tile_at(p.x, p.y), Tile::Floor);
        for i in 0..10 {
            if let Some(e) = g.enemy(i) {
                assert_eq!(g.tile_at(e.position.x, e.position.y), Tile::Floor);
            }
        }
    }
}

#[test]
fn new_map_lays_out_a_walled_level() {
    let mut g = Game::new();
    let mut rng = Rng::new(0xACE1);
    for level in 1..=12u8 {
        g.new_map(&mut rng);
        assert_eq!(g.level(), level);
        check_level(&g, true);
    }
    g.reset();
    assert_eq!(g.level(), 0);
}

#[test]
fn new_map_terminates_with_a_stuck_generator() {
    let mut g = Game::new();
    let mut rng = Rng::new(0);
    g.new_map(&mut rng);
    check_level(&g, true);
}

#[test]
fn turns_keep_the_level_playable() {
    let mut mcu = Mcu::new();
    let clock = Clock::init(&mut mcu).ok().unwrap();
    let mut input = Input::init(&mut mcu.io);
    let mut g = Game::new();
    let mut rng = Rng::new(0x1234);
    g.new_map(&mut rng);
    mcu.ticks = 100;
    let pins = [3u8, 4, 5, 6];
    let mut outcomes = Vec::new();
    for turn in 0..40usize {
        let pin = pins[turn % 4];
        mcu.io.store(0x29, 0xFF & !(1 << pin));
        for _ in 0..3 {
            timer_compare_interrupt(&mut mcu);
        }
        let now = clock.now(&mut mcu);
        if input.update(&mcu.io, now) {
            let before = g.player_position();
            let r = g.update(&input);
            let after = g.player_position();
            let dist = (before.x as i32 - after.x as i32).abs() + (before.y as i32 - after.y as i32).abs();
            assert!(dist <= 1);
            outcomes.push(r);
            match r {
                ContinueState::NewLevel => {
                    if g.level() < 255 {
                        g.new_map(&mut rng);
                    }
                }
                ContinueState::GameOver => break,
                _ => {}
            }
            check_level(&g, false);
        }
        mcu.io.store(0x29, 0xFF);
        for _ in 0..3 {
            timer_compare_interrupt(&mut mcu);
        }
        let now = clock.now(&mut mcu);
        input.update(&mcu.io, now);
    }
    assert!(!outcomes.is_empty());
}

#[test]
fn draw_reports_bus_outcome() {
    let mut g = Game::new();
    let mut rng = Rng::new(0xBEEF);
    g.new_map(&mut rng);
    for (acks, acked, want) in [
        (true, 32usize, Ok(())),
        (true, 8, Err(TWIError::SendDataNACK)),
        (false, 32, Err(TWIError::SendAddressNACK)),
    ] {
        let mut mcu = Mcu::new();
        let mut twi = TWI::init(&mut mcu).ok().unwrap();
        twi.set_address(&mut mcu, 0x3C).unwrap();
        let mut bus = SimBus::new(true, 32);
        let mut d = Display::init(&mut twi, &mut mcu, &mut bus).ok().unwrap();
        let mut bus = SimBus::new(acks, acked);
        assert_eq!(g.draw(&mut d, &mut twi, &mut mcu, &mut bus), want);
        if want.is_ok() {
            let stops = bus.events.iter().filter(|e| **e == BusEvent::Stop).count();
            let live = (0..10).filter(|&i| g.enemy(i).is_some()).count();
            assert!(stops >= 2 * (128 + 1) && stops <= 2 * (128 + 1 + live));
            let mut first = vec![BusEvent::Start, BusEvent::Byte(0x78)];
            first.extend([0x00u8, 0x22, 0, 0, 0x21, 0, 7].iter().map(|b| BusEvent::Byte(*b)));
            first.push(BusEvent::Stop);
            first.push(BusEvent::Start);
            first.push(BusEvent::Byte(0x78));
            first.extend(tiles::WALL.iter().map(|b| BusEvent::Byte(*b)));
            first.push(BusEvent::Stop);
            assert_eq!(bus.events[..first.len()], first[..]);
        }
    }
}
