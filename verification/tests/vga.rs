use bare_kernel::drivers::vga::print;
use bare_kernel::drivers::vga::try_print;
use bare_kernel::drivers::vga::Buffer;
use bare_kernel::drivers::vga::Color;
use bare_kernel::drivers::vga::ColorCode;
use bare_kernel::drivers::vga::ScreenChar;
use bare_kernel::drivers::vga::Writer;
use bare_kernel::drivers::vga::BUFFER_ADDR;
use bare_kernel::drivers::vga::BUFFER_HEIGHT;
use bare_kernel::drivers::vga::BUFFER_SIZE;
use bare_kernel::drivers::vga::BUFFER_WIDTH;
use bare_kernel::sync::Mutex;

fn cell(byte: u8, color_code: ColorCode) -> ScreenChar {
    ScreenChar { ascii_character: byte, color_code }
}

#[test]
fn display_geometry() {
    assert_eq!(BUFFER_ADDR, 0xb8000);
    assert_eq!(BUFFER_WIDTH, 80);
    assert_eq!(BUFFER_HEIGHT, 25);
    assert_eq!(BUFFER_SIZE, 2000);
}

#[test]
fn color_numbers() {
    let colors = [
        Color::Black,
        Color::Blue,
        Color::Green,
        Color::Cyan,
        Color::Red,
        Color::Magenta,
        Color::Brown,
        Color::LightGray,
        Color::DarkGray,
        Color::LightBlue,
        Color::LightGreen,
        Color::LightCyan,
        Color::LightRed,
        Color::Pink,
        Color::Yellow,
        Color::White,
    ];
    for (number, color) in colors.iter().enumerate() {
        assert_eq!(color.code() as usize, number);
    }
    assert_eq!(Color::default(), Color::Black);
}

#[test]
fn color_code_packs_background_high_and_foreground_low() {
    assert_eq!(ColorCode::new(Color::White, Color::Black), ColorCode(0x0f));
    assert_eq!(ColorCode::new(Color::Black, Color::White), ColorCode(0xf0));
    assert_eq!(ColorCode::new(Color::Yellow, Color::Blue), ColorCode(0x1e));
    assert_eq!(ColorCode::new(Color::Black, Color::Black), ColorCode(0x00));
    assert_eq!(ColorCode::new(Color::White, Color::White), ColorCode(0xff));
    assert_eq!(ColorCode::default(), ColorCode(0));
}

#[test]
fn default_buffer_is_blank() {
    let buffer = Buffer::default();
    assert_eq!(buffer.chars.len(), 2000);
    assert!(buffer.chars.iter().all(|c| *c == cell(0, ColorCode(0))));
    assert_eq!(ScreenChar::default(), cell(0, ColorCode(0)));
}

#[test]
fn write_byte_fills_the_cell_and_moves_on() {
    let mut buffer = Buffer::default();
    let color = ColorCode::new(Color::White, Color::Black);
    let mut writer = Writer { position: 0, color_code: color, buffer: &mut buffer };
    writer.write_byte(b'H');
    writer.write_byte(b'i');
    assert_eq!(writer.position, 2);
    assert_eq!(buffer.chars[0], cell(b'H', color));
    assert_eq!(buffer.chars[1], cell(b'i', color));
    assert_eq!(buffer.chars[2], cell(0, ColorCode(0)));
}

#[test]
fn write_byte_does_not_filter() {
    let mut buffer = Buffer::default();
    let color = ColorCode(0x1e);
    let mut writer = Writer { position: 5, color_code: color, buffer: &mut buffer };
    writer.write_byte(0x01);
    assert_eq!(writer.position, 6);
    assert_eq!(buffer.chars[5], cell(0x01, color));
}

#[test]
fn line_feed_moves_to_the_next_line_start() {
    for (from, to) in [(0usize, 80usize), (1, 80), (79, 80), (80, 160), (81, 160), (1919, 1920), (1920, 2000), (1999, 2000)] {
        let mut buffer = Buffer::default();
        let mut writer = Writer { position: from, color_code: ColorCode(0x0f), buffer: &mut buffer };
        writer.write_byte(b'\n');
        assert_eq!(writer.position, to);
        assert!(buffer.chars.iter().all(|c| *c == cell(0, ColorCode(0))));
    }
}

#[test]
fn write_str_replaces_what_has_no_glyph() {
    let mut buffer = Buffer::default();
    let color = ColorCode(0x0f);
    let mut writer = Writer { position: 0, color_code: color, buffer: &mut buffer };
    writer.write_str("a\tb\u{e9}~ \u{7f}");
    assert_eq!(writer.position, 8);
    let shown: Vec<u8> = buffer.chars[..8].iter().map(|c| c.ascii_character).collect();
    assert_eq!(shown, vec![b'a', 0xfe, b'b', 0xfe, 0xfe, b'~', b' ', 0xfe]);
    assert!(buffer.chars[..8].iter().all(|c| c.color_code == color));
    assert_eq!(buffer.chars[8], cell(0, ColorCode(0)));
}

#[test]
fn write_str_breaks_lines() {
    let mut buffer = Buffer::default();
    let color = ColorCode(0x0f);
    let mut writer = Writer { position: 0, color_code: color, buffer: &mut buffer };
    writer.write_str("Hello VGA!\n\nBtw, 42\n");
    assert_eq!(writer.position, 240);
    assert_eq!(buffer.chars[0], cell(b'H', color));
    assert_eq!(buffer.chars[9], cell(b'!', color));
    assert_eq!(buffer.chars[10], cell(0, ColorCode(0)));
    assert_eq!(buffer.chars[80], cell(0, ColorCode(0)));
    assert_eq!(buffer.chars[160], cell(b'B', color));
    assert_eq!(buffer.chars[166], cell(b'2', color));
}

#[test]
fn empty_string_changes_nothing() {
    let mut buffer = Buffer::default();
    let mut writer = Writer { position: 2000, color_code: ColorCode(0x0f), buffer: &mut buffer };
    assert!(writer.can_write_str(""));
    writer.write_str("");
    assert_eq!(writer.position, 2000);
}

#[test]
fn can_write_str_knows_where_the_display_ends() {
    let mut buffer = Buffer::default();
    let mut writer = Writer { position: 1998, color_code: ColorCode(0x0f), buffer: &mut buffer };
    assert!(writer.can_write_str("ab"));
    assert!(!writer.can_write_str("abc"));
    assert!(writer.can_write_str("a\n"));
    assert!(!writer.can_write_str("\na"));
    writer.write_str("ab");
    assert_eq!(writer.position, 2000);
    assert!(!writer.can_write_str("a"));
    assert!(!writer.can_write_str("\n"));
    assert_eq!(buffer.chars[1998].ascii_character, b'a');
    assert_eq!(buffer.chars[1999].ascii_character, b'b');
}

#[test]
fn twenty_five_lines_fit_and_no_more() {
    let mut buffer = Buffer::default();
    let writer = Writer { position: 0, color_code: ColorCode(0x0f), buffer: &mut buffer };
    assert!(writer.can_write_str(&"\n".repeat(25)));
    assert!(!writer.can_write_str(&"\n".repeat(26)));
    assert!(writer.can_write_str(&"x".repeat(2000)));
    assert!(!writer.can_write_str(&"x".repeat(2001)));
}

#[test]
fn try_print_prints_when_the_lock_is_free() {
    let mut buffer = Buffer::default();
    let color = ColorCode::new(Color::White, Color::Black);
    {
        let mut writer = Mutex::new(Writer { position: 0, color_code: color, buffer: &mut buffer });
        assert!(try_print(&mut writer, "ok\n"));
        assert!(try_print(&mut writer, "again"));
        let handle = writer.try_lock().expect("printing gives the lock back");
        assert_eq!(handle.position, 85);
    }
    assert_eq!(buffer.chars[0], cell(b'o', color));
    assert_eq!(buffer.chars[1], cell(b'k', color));
    assert_eq!(buffer.chars[80], cell(b'a', color));
    assert_eq!(buffer.chars[84], cell(b'n', color));
}

#[test]
fn try_print_skips_when_the_lock_is_held() {
    let mut buffer = Buffer::default();
    {
        let mut writer =
            Mutex::new(Writer { position: 0, color_code: ColorCode(0x0f), buffer: &mut buffer });
        core::mem::forget(writer.try_lock().unwrap());
        assert!(!try_print(&mut writer, "lost"));
    }
    assert!(buffer.chars.iter().all(|c| *c == cell(0, ColorCode(0))));
}

#[test]
fn print_prints() {
    let mut buffer = Buffer::default();
    let color = ColorCode(0x0f);
    {
        let mut writer = Mutex::new(Writer { position: 78, color_code: color, buffer: &mut buffer });
        print(&mut writer, "wrap");
        assert_eq!(writer.try_lock().unwrap().position, 82);
    }
    assert_eq!(buffer.chars[78], cell(b'w', color));
    assert_eq!(buffer.chars[79], cell(b'r', color));
    assert_eq!(buffer.chars[80], cell(b'a', color));
    assert_eq!(buffer.chars[81], cell(b'p', color));
}

#[test]
fn writing_in_parts_is_writing_the_whole() {
    let color = ColorCode(0x2a);
    let mut whole = Buffer::default();
    let mut parts = Buffer::default();
    let end_of_whole = {
        let mut writer = Writer { position: 70, color_code: color, buffer: &mut whole };
        assert!(writer.can_write_str("Btw, 42\nand \u{1} more"));
        writer.write_str("Btw, 42\nand \u{1} more");
        writer.position
    };
    let end_of_parts = {
        let mut writer = Writer { position: 70, color_code: color, buffer: &mut parts };
        for part in ["Btw, ", "42", "\n", "", "and \u{1} more"] {
            assert!(writer.can_write_str(part));
            writer.write_str(part);
        }
        writer.position
    };
    assert_eq!(end_of_whole, end_of_parts);
    assert_eq!(end_of_whole, 90);
    assert_eq!(whole, parts);
}
