use cureos::tty::{
    tty_clear, tty_clear_line, tty_get_cpos, tty_get_theme, tty_init, tty_put_char, tty_put_str,
    tty_scroll_up, tty_set_buffer, tty_set_cpos, tty_set_theme, TTYState, TTY_CELLS, TTY_WIDTH,
    VGA_BUFFER_PADDR, VGA_COLOR_BLACK, VGA_COLOR_BLUE, VGA_COLOR_WHITE,
};

fn console() -> TTYState {
    let mut tty = TTYState::new();
    tty_set_theme(&mut tty, VGA_COLOR_WHITE, VGA_COLOR_BLACK);
    tty_init(&mut tty, VGA_BUFFER_PADDR);
    tty
}

#[test]
fn detached_console_draws_nothing() {
    let mut tty = TTYState::new();
    tty_put_str(&mut tty, "hello\n");
    assert_eq!(tty_get_cpos(&tty), (0, 0));
    assert!(tty.cells.iter().all(|&c| c == 0));
}

#[test]
fn theme_attribute() {
    let mut tty = TTYState::new();
    assert_eq!(tty_get_theme(&tty), 0);
    tty_set_theme(&mut tty, VGA_COLOR_WHITE, VGA_COLOR_BLUE);
    assert_eq!(tty_get_theme(&tty), 0x1F00);
}

#[test]
fn init_clears_with_theme() {
    let tty = console();
    assert_eq!(tty.cells.len(), TTY_CELLS);
    assert!(tty.cells.iter().all(|&c| c == 0x0F00));
    assert_eq!(tty_get_cpos(&tty), (0, 0));
}

#[test]
fn characters_and_controls() {
    let mut tty = console();
    tty_put_str(&mut tty, "Hi");
    assert_eq!(&tty.cells[..2], &[0x0F48, 0x0F69]);
    assert_eq!(tty_get_cpos(&tty), (2, 0));
    tty_put_char(&mut tty, '\t');
    assert_eq!(tty_get_cpos(&tty), (6, 0));
    tty_put_char(&mut tty, '\r');
    assert_eq!(tty_get_cpos(&tty), (0, 0));
    tty_put_char(&mut tty, '\n');
    assert_eq!(tty_get_cpos(&tty), (0, 1));
    tty_put_str(&mut tty, "\u{e9}\u{20ac}");
    assert_eq!(&tty.cells[80..82], &[0x0FE9, 0x0FAC]);
}

#[test]
fn long_line_wraps() {
    let mut tty = console();
    let line: String = std::iter::repeat('a').take(TTY_WIDTH + 3).collect();
    tty_put_str(&mut tty, &line);
    assert_eq!(tty_get_cpos(&tty), (3, 1));
    tty_set_cpos(&mut tty, 78, 0);
    tty_put_char(&mut tty, '\t');
    assert_eq!(tty_get_cpos(&tty), (0, 1));
}

#[test]
fn last_row_scrolls() {
    let mut tty = console();
    tty_put_str(&mut tty, "top\n");
    for _ in 0..23 {
        tty_put_char(&mut tty, '\n');
    }
    tty_put_str(&mut tty, "bottom");
    assert_eq!(tty_get_cpos(&tty), (6, 24));
    tty_put_char(&mut tty, '\n');
    assert_eq!(tty_get_cpos(&tty), (0, 24));
    assert_eq!(tty.cells[0], 0x0F00);
    assert_eq!(tty.cells[23 * 80], 0x0F00 | b'b' as u16);
    assert!(tty.cells[24 * 80..].iter().all(|&c| c == 0x0F00));
}

#[test]
fn scroll_keeps_first_row_cursor() {
    let mut tty = console();
    tty_put_str(&mut tty, "x");
    tty_set_cpos(&mut tty, 5, 0);
    tty_scroll_up(&mut tty);
    assert_eq!(tty_get_cpos(&tty), (5, 0));
    tty_set_cpos(&mut tty, 5, 3);
    tty_scroll_up(&mut tty);
    assert_eq!(tty_get_cpos(&tty), (5, 24));
}

#[test]
fn clear_line_and_clear() {
    let mut tty = console();
    tty_put_str(&mut tty, "ab\ncd");
    tty_clear_line(&mut tty, 0);
    assert_eq!(&tty.cells[..2], &[0x0F00, 0x0F00]);
    assert_eq!(tty.cells[80], 0x0F00 | b'c' as u16);
    tty_set_theme(&mut tty, VGA_COLOR_BLACK, VGA_COLOR_WHITE);
    tty_clear(&mut tty);
    assert!(tty.cells.iter().all(|&c| c == 0xF000));
    assert_eq!(tty_get_cpos(&tty), (0, 0));
}

#[test]
fn cursor_position_wraps_onto_grid() {
    let mut tty = console();
    tty_set_cpos(&mut tty, 85, 27);
    assert_eq!(tty_get_cpos(&tty), (5, 2));
    tty_set_buffer(&mut tty, 0);
    tty_put_char(&mut tty, 'z');
    assert_eq!(tty_get_cpos(&tty), (5, 2));
}
