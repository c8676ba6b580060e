use kernel_core::tty::Tty;
use kernel_core::vga::{Buffer, Char, CharStyle, Color, Writer};

#[test]
fn char_style_packs_colours() {
    assert_eq!(CharStyle::new(Color::Blue, Color::LightRed), CharStyle(0x1c));
    assert_eq!(CharStyle::new(Color::Black, Color::White), CharStyle(0x0f));
    assert_eq!(Color::LightBrown.as_u8(), 14);
    let c = Char::new('A', CharStyle(0x0f));
    assert_eq!(c.char, b'A');
    assert_eq!(Char::new('\u{141}', CharStyle(0)).char, 0x41);
}

#[test]
fn writer_prints_on_bottom_row() {
    let mut w = Writer::new(Buffer::new());
    w.write_string("hi");
    assert_eq!(w.buffer().read(0, 24).char, b'h');
    assert_eq!(w.buffer().read(1, 24).char, b'i');
    w.write_string("\n");
    assert_eq!(w.buffer().read(0, 23).char, b'h');
    assert_eq!(w.buffer().read(0, 24).char, b' ');
    w.write_string("\u{e9}");
    assert_eq!(w.buffer().read(0, 24).char, 0xfe);
    assert_eq!(w.buffer().read(1, 24).char, 0xfe);
}

#[test]
fn writer_wraps_full_row() {
    let mut w = Writer::new(Buffer::new());
    for _ in 0..80 {
        w.write_byte(b'x');
    }
    w.write_byte(b'y');
    assert_eq!(w.buffer().read(79, 23).char, b'x');
    assert_eq!(w.buffer().read(0, 24).char, b'y');
    assert_eq!(w.buffer().read(1, 24).char, b' ');
}

#[test]
fn tty_cursor_and_rows() {
    let mut t = Tty::new();
    t.write_str("ab\ncd");
    assert_eq!((t.row(), t.column()), (1, 2));
    assert_eq!(t.buffer().read(0, 0).char, b'a');
    assert_eq!(t.buffer().read(1, 1).char, b'd');
    t.clear_char();
    assert_eq!(t.column(), 1);
    assert_eq!(t.buffer().read(1, 1).char, b' ');
    t.set_row(3).set_column(5);
    assert_eq!((t.row(), t.column()), (3, 5));
    t.set_style(Color::Red, Color::Green);
    assert_eq!(t.style(), CharStyle(0x42));
    t.write_row("ok", 2);
    assert_eq!(t.buffer().read(0, 2).char, b'o');
    assert_eq!((t.row(), t.column()), (2, 2));
    t.clear_row(2);
    assert_eq!(t.buffer().read(0, 2).char, b' ');
}

#[test]
fn tty_scroll_and_clear_last_line() {
    let mut t = Tty::new();
    t.write_str("top\nnext");
    t.scroll();
    assert_eq!(t.buffer().read(0, 0).char, b'n');
    assert_eq!(t.column(), 0);
    t.set_row(24).set_column(0);
    t.write_char('z');
    assert_eq!(t.buffer().read(0, 24).char, b'z');
    t.clear_last_line();
    assert_eq!(t.buffer().read(0, 24), Char::new(' ', CharStyle(0x0f)));
    t.new_line();
    assert_eq!((t.row(), t.column()), (25, 0));
}
