use chip8::call_stack;
use chip8::memory;
use chip8::CallStack;
use chip8::Memory;
use chip8::Keypad;
use chip8::Screen;

#[test]
fn memory_get_and_set_are_bounds_checked() {
    let mut mem = Memory::zeroed();
    assert_eq!(mem.set(0x300, 0xAB), Ok(()));
    assert_eq!(mem.get(0x300), Ok(0xAB));
    assert_eq!(mem.get(4095), Ok(0));
    assert_eq!(mem.get(4096), Err(memory::Error::OutOfBound(4096)));
    assert_eq!(mem.set(4096, 1), Err(memory::Error::OutOfBound(4096)));
    assert_eq!(mem.get(0xFFFF), Err(memory::Error::OutOfBound(0xFFFF)));
}

#[test]
fn memory_get_mut_writes_through() {
    let mut mem = Memory::zeroed();
    *mem.get_mut(100).unwrap() = 9;
    assert_eq!(mem.get(100), Ok(9));
    assert!(matches!(mem.get_mut(4096), Err(memory::Error::OutOfBound(4096))));
}

#[test]
fn memory_range_copies_bytes() {
    let mut mem = Memory::zeroed();
    mem.set(10, 1).unwrap();
    mem.set(11, 2).unwrap();
    mem.set(12, 3).unwrap();
    assert_eq!(mem.range(10, 3), Ok(vec![1, 2, 3]));
    assert_eq!(mem.range(4094, 2), Ok(vec![0, 0]));
    assert_eq!(mem.range(4094, 3), Err(memory::Error::RangeOutOfBound(4094, 3)));
    assert_eq!(mem.range(5000, 1), Err(memory::Error::RangeOutOfBound(5000, 1)));
}

#[test]
fn memory_nibbles_come_in_source_order() {
    let mut mem = Memory::zeroed();
    mem.set(0x200, 0x61).unwrap();
    mem.set(0x201, 0x05).unwrap();
    assert_eq!(mem.nibbles_at(0x200), Ok([0x6, 0x1, 0x0, 0x5]));
    assert_eq!(mem.nibbles_at(4095), Err(memory::Error::OutOfBound(4096)));
    assert_eq!(mem.nibbles_at(4096), Err(memory::Error::OutOfBound(4096)));
    assert_eq!(mem.nibbles_at(5000), Err(memory::Error::OutOfBound(5000)));
}

#[test]
fn memory_load_program_fills_program_region() {
    let mut mem = Memory::zeroed();
    mem.set(0x200, 0xEE).unwrap();
    mem.set(0x205, 0x77).unwrap();
    assert_eq!(mem.load_program(&[1, 2, 3]), Ok(()));
    assert_eq!(mem.get(0x200), Ok(1));
    assert_eq!(mem.get(0x201), Ok(2));
    assert_eq!(mem.get(0x202), Ok(3));
    // the rest of the program region keeps its previous contents
    assert_eq!(mem.get(0x205), Ok(0x77));
}

#[test]
fn memory_load_program_rejects_oversized_programs() {
    let mut mem = Memory::zeroed();
    let exact = vec![7u8; 4096 - 0x200];
    assert_eq!(mem.load_program(&exact), Ok(()));
    assert_eq!(mem.get(4095), Ok(7));
    let too_large = vec![7u8; 4096 - 0x200 + 1];
    assert_eq!(mem.load_program(&too_large), Err(memory::Error::ProgramTooLarge));
}

#[test]
fn memory_font_glyphs_are_installed() {
    let mut mem = Memory::zeroed();
    mem.load_font();
    // digit 0: F0 90 90 90 F0
    assert_eq!(mem.get(0), Ok(0xF0));
    assert_eq!(mem.get(1), Ok(0x90));
    assert_eq!(mem.get(4), Ok(0xF0));
    // digit 1 starts at address 5
    assert_eq!(mem.get(5), Ok(0x20));
    // digit F: F0 80 F0 80 80
    assert_eq!(mem.get(75), Ok(0xF0));
    assert_eq!(mem.get(79), Ok(0x80));
    // bytes past the glyphs are untouched
    assert_eq!(mem.get(80), Ok(0));
}

#[test]
fn call_stack_round_trip() {
    let mut stack = CallStack::new();
    let addrs: Vec<u16> = (0..12).map(|k| 0x200 + 7 * k).collect();
    for &a in &addrs {
        assert_eq!(stack.push(a), Ok(()));
    }
    // a thirteenth push fails with Overflow
    assert_eq!(stack.push(0xBEE), Err(call_stack::Error::Overflow));
    // popping yields the twelve addresses in reverse order
    for &a in addrs.iter().rev() {
        assert_eq!(stack.pop(), Ok(a));
    }
    // popping an empty stack fails with Underflow
    assert_eq!(stack.pop(), Err(call_stack::Error::Underflow));
}

#[test]
fn keypad_tracks_steady_and_edge_state() {
    let mut pad = Keypad::new();
    assert!(!pad.pressed(3));
    assert_eq!(pad.just_pressed(), None);
    pad.press(3);
    assert!(pad.pressed(3));
    assert_eq!(pad.just_pressed(), Some(3));
    // a repeated press of a held key adds no new edge
    pad.reset();
    pad.press(3);
    assert_eq!(pad.just_pressed(), None);
    assert!(pad.pressed(3));
    // reset clears edges only, not steady state
    pad.press(7);
    pad.reset();
    assert!(pad.pressed(3));
    assert!(pad.pressed(7));
    assert_eq!(pad.just_pressed(), None);
    // release records the edge and clears steady state
    pad.release(3);
    assert!(!pad.pressed(3));
    assert_eq!(pad.just_released(), Some(3));
    // a key code outside the pad counts as not pressed
    assert!(!pad.pressed(200));
}

#[test]
fn keypad_just_pressed_returns_lowest_key() {
    let mut pad = Keypad::new();
    pad.press(9);
    pad.press(2);
    pad.press(11);
    assert_eq!(pad.just_pressed(), Some(2));
}

#[test]
fn screen_draw_sets_pixels_and_reports_collision() {
    let mut screen = Screen::new();
    // one byte, 0b1010_0000: pixels at x = 0 and x = 2
    let collision = screen.draw_sprite(0, 0, &[0xA0]);
    assert!(!collision);
    assert!(screen.pixel(0, 0));
    assert!(!screen.pixel(1, 0));
    assert!(screen.pixel(2, 0));
    // drawing 0b1100_0000 on top: pixel 0 collides and turns off, pixel 1 turns on
    let collision = screen.draw_sprite(0, 0, &[0xC0]);
    assert!(collision);
    assert!(!screen.pixel(0, 0));
    assert!(screen.pixel(1, 0));
    assert!(screen.pixel(2, 0));
}

#[test]
fn screen_draw_twice_restores_previous_state() {
    let mut screen = Screen::new();
    screen.draw_sprite(20, 20, &[0x5A]);
    let sprite = [0xF0, 0x90, 0x90, 0x90, 0xF0];
    let first = screen.draw_sprite(1, 2, &sprite);
    let second = screen.draw_sprite(1, 2, &sprite);
    // the region was fully unset before the first draw, so only the second
    // draw finds set pixels to turn off
    assert!(!first);
    assert!(second);
    // back to exactly the state before the first draw: 0x5A at (20, 20) set
    // columns 1, 3, 4 and 6 of its row
    for x in 0..64 {
        for y in 0..32 {
            let initial = y == 20 && (x == 21 || x == 23 || x == 24 || x == 26);
            assert_eq!(screen.pixel(x, y), initial, "pixel ({x}, {y})");
        }
    }
}

#[test]
fn screen_clips_at_the_edges() {
    let mut screen = Screen::new();
    // at x = 60 only the leftmost four sprite pixels fit
    let collision = screen.draw_sprite(60, 31, &[0xFF, 0xFF]);
    assert!(!collision);
    for x in 60..64 {
        assert!(screen.pixel(x, 31));
    }
    // the second row fell past the bottom edge; nothing wrapped
    for x in 0..64 {
        assert!(!screen.pixel(x, 0));
    }
    // fully off-screen start draws nothing
    let mut screen = Screen::new();
    let collision = screen.draw_sprite(100, 50, &[0xFF]);
    assert!(!collision);
    for x in 0..64 {
        for y in 0..32 {
            assert!(!screen.pixel(x, y));
        }
    }
}

#[test]
fn screen_clear_unsets_everything() {
    let mut screen = Screen::new();
    screen.draw_sprite(10, 10, &[0xFF]);
    screen.clear();
    for x in 0..64 {
        for y in 0..32 {
            assert!(!screen.pixel(x, y));
        }
    }
}
