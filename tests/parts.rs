use chip8::display::{to_bits, DisplayBuffer, DISPLAY_SIZE, WIDTH};
use chip8::keyboard::KeyboardState;
use chip8::memory::{Memory, FONT};
use chip8::stack::{Stack, STACK_DEPTH};
use chip8::timer::Timers;

#[test]
fn drawing_twice_restores_and_collides() {
    let mut d = DisplayBuffer::new();
    let sprite = [0b1010_0101u8, 0xFF, 0x18];
    assert!(!d.write_sprite(&sprite, 10, 4));
    assert!(d.buffer()[4 * WIDTH + 10]);
    assert!(!d.buffer()[4 * WIDTH + 11]);
    assert!(d.buffer()[5 * WIDTH + 17]);
    assert_eq!(d.buffer().iter().filter(|&&p| p).count(), 4 + 8 + 2);
    assert!(d.write_sprite(&sprite, 10, 4));
    assert!(d.buffer().iter().all(|&p| !p));
}

#[test]
fn drawing_at_the_right_edge_does_not_wrap() {
    let mut d = DisplayBuffer::new();
    assert!(!d.write_sprite(&[0xFF], 63, 0));
    for px in 0..WIDTH {
        assert_eq!(d.buffer()[px], px == 63);
    }
    assert!(d.buffer()[WIDTH..].iter().all(|&p| !p));
}

#[test]
fn drawing_at_the_bottom_edge_does_not_wrap() {
    let mut d = DisplayBuffer::new();
    assert!(!d.write_sprite(&[0x80, 0x80, 0x80], 0, 31));
    assert!(d.buffer()[31 * WIDTH]);
    assert_eq!(d.buffer().iter().filter(|&&p| p).count(), 1);
    assert!(!d.write_sprite(&[0xFF], 64, 32));
    assert_eq!(d.buffer().iter().filter(|&&p| p).count(), 1);
}

#[test]
fn clear_turns_everything_off() {
    let mut d = DisplayBuffer::new();
    d.write_sprite(&[0xFF; 15], 0, 0);
    d.clear();
    assert_eq!(d.buffer().len(), DISPLAY_SIZE);
    assert!(d.buffer().iter().all(|&p| !p));
}

#[test]
fn bits_of_a_byte() {
    assert_eq!(to_bits(0b1000_0001), [true, false, false, false, false, false, false, true]);
    assert_eq!(to_bits(0), [false; 8]);
    assert_eq!(to_bits(0x5A), [false, true, false, true, true, false, true, false]);
}

#[test]
fn memory_font_and_rom() {
    let mut m = Memory::new();
    assert_eq!(m.read_byte(0), 0xF0);
    assert_eq!(m.read_byte(79), 0x80);
    assert_eq!(m.read_byte(80), 0);
    assert_eq!(m.sprite_address(0), 0);
    assert_eq!(m.sprite_address(0xF), 75);
    assert_eq!(m.read_sprite(m.sprite_address(1), 5), FONT[5..10].to_vec());
    m.load_rom(&[1, 2, 3]);
    assert_eq!(m.read_sprite(0x1FF, 5), vec![0, 1, 2, 3, 0]);
    m.write_byte(0xFFF, 9);
    assert_eq!(m.read_byte(0xFFF), 9);
}

#[test]
fn lowest_pressed_key() {
    let mut k = KeyboardState::new();
    assert_eq!(k.any_pressed(), None);
    k.handle_input(0xC, true);
    k.handle_input(0x3, true);
    assert_eq!(k.any_pressed(), Some(3));
    k.handle_input(0x3, false);
    assert_eq!(k.any_pressed(), Some(0xC));
}

#[test]
fn timers_count_down_once_per_period() {
    let mut t = Timers::new();
    t.delay_timer = 2;
    t.sound_timer = 1;
    assert_eq!(t.tick(10_000), 10_000);
    assert_eq!((t.delay_timer, t.sound_timer), (2, 1));
    assert_eq!(t.tick(16_666), 0);
    assert_eq!((t.delay_timer, t.sound_timer, t.last_tick), (1, 0, 16_666));
    assert_eq!(t.tick(40_000), 0);
    assert_eq!((t.delay_timer, t.sound_timer), (0, 0));
    assert_eq!(t.tick(100_000), 0);
    assert_eq!((t.delay_timer, t.sound_timer), (0, 0));
    assert_eq!(t.tick(50_000), 0);
    assert_eq!(t.last_tick, 100_000);
}

#[test]
fn stack_is_bounded_lifo() {
    let mut s = Stack::new();
    assert_eq!(s.pop(), None);
    assert_eq!(s.peek(), None);
    for k in 0..STACK_DEPTH as u16 {
        assert!(s.push(0x200 + 2 * k));
    }
    assert!(!s.push(0xABC));
    assert_eq!(s.len(), STACK_DEPTH);
    assert_eq!(s.peek(), Some(0x21E));
    assert_eq!(s.pop(), Some(0x21E));
    assert_eq!(s.pop(), Some(0x21C));
    assert_eq!(s.len(), STACK_DEPTH - 2);
}
