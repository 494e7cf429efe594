use krabbos::vga::{VGAColor, VGAColorCode, VGAWriter, VGA_BUFFER_HEIGHT, VGA_BUFFER_WIDTH};

#[test]
fn color_codes() {
    assert_eq!(VGAColorCode::new(VGAColor::BrightWhite, VGAColor::Black).0, 0x0F);
    assert_eq!(VGAColorCode::new(VGAColor::Yellow, VGAColor::Blue).0, 0x1E);
    assert_eq!(VGAColor::LightMagenta.code(), 13);
}

#[test]
fn writes_characters_and_newlines() {
    let mut w = VGAWriter::new(VGAColor::BrightWhite, VGAColor::Black);
    assert_eq!(w.cursor_offset(), 0);
    w.write_string("hi\n!");
    assert_eq!(w.cell(0, 0).ascii_character, b'h');
    assert_eq!(w.cell(0, 1).ascii_character, b'i');
    assert_eq!(w.cell(1, 0).ascii_character, b'!');
    assert_eq!(w.cell(1, 0).color_code.0, 0x0F);
    assert_eq!(w.cursor_offset(), VGA_BUFFER_WIDTH + 1);
}

#[test]
fn unprintable_bytes_show_as_blocks() {
    let mut w = VGAWriter::new(VGAColor::White, VGAColor::Black);
    w.write_string("\u{e9}\t");
    assert_eq!(w.cell(0, 0).ascii_character, 0xfe);
    assert_eq!(w.cell(0, 1).ascii_character, 0xfe);
    assert_eq!(w.cell(0, 2).ascii_character, 0xfe);
    assert_eq!(w.cursor_offset(), 3);
}

#[test]
fn last_column_wraps_before_writing() {
    let mut w = VGAWriter::new(VGAColor::White, VGAColor::Black);
    let line: String = std::iter::repeat('a').take(VGA_BUFFER_WIDTH).collect();
    w.write_string(&line);
    assert_eq!(w.cell(0, 78).ascii_character, b'a');
    assert_eq!(w.cell(0, 79).ascii_character, b' ');
    assert_eq!(w.cell(1, 0).ascii_character, b'a');
    assert_eq!(w.cursor_offset(), VGA_BUFFER_WIDTH + 1);
}

#[test]
fn last_row_scrolls() {
    let mut w = VGAWriter::new(VGAColor::White, VGAColor::Black);
    w.write_string("top\n");
    for _ in 0..VGA_BUFFER_HEIGHT - 2 {
        w.write_byte(b'\n');
    }
    assert_eq!(w.cursor_offset(), (VGA_BUFFER_HEIGHT - 1) * VGA_BUFFER_WIDTH);
    w.write_string("x");
    w.new_line();
    assert_eq!(w.cell(0, 0).ascii_character, b' ');
    assert_eq!(w.cell(VGA_BUFFER_HEIGHT - 2, 0).ascii_character, b'x');
    assert_eq!(w.cell(VGA_BUFFER_HEIGHT - 1, 0).ascii_character, b' ');
    assert_eq!(w.cursor_offset(), (VGA_BUFFER_HEIGHT - 1) * VGA_BUFFER_WIDTH);
    w.scroll();
    assert_eq!(w.cell(VGA_BUFFER_HEIGHT - 3, 0).ascii_character, b'x');
}

#[test]
fn recolouring_keeps_text() {
    let mut w = VGAWriter::new(VGAColor::White, VGAColor::Black);
    w.write_string("ok");
    w.update_colors(VGAColor::Green, VGAColor::Red);
    assert_eq!(w.cell(0, 0).ascii_character, b'o');
    assert_eq!(w.cell(0, 0).color_code.0, 0x42);
    assert_eq!(w.cell(24, 79).color_code.0, 0x42);
}
