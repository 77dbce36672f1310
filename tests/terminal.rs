use oberon::linalg::{Point2, Vec2};
use oberon::renderer::Renderer;
use oberon::style::{Color, Rgb};
use oberon::terminal::{
    cell_index_to_cell_position, cell_position_to_cell_index, Block, Cell, Terminal,
};

#[test]
fn test_calculate_screen_position() {
    let terminal = Terminal::new(Vec2::new(10, 10), 2);

    let pos = terminal.block_index_to_screen_position(0);

    assert_eq!(pos.x, 0);
    assert_eq!(pos.y, 0);

    let pos = terminal.block_index_to_screen_position(9);

    assert_eq!(pos.x, 18);
    assert_eq!(pos.y, 0);

    let pos = terminal.block_index_to_screen_position(11);

    assert_eq!(pos.x, 2);
    assert_eq!(pos.y, 1);
}

#[test]
fn encoder_sequences_are_exact() {
    let mut r = Renderer::new();
    r.clear();
    r.move_cursor(Point2::new(4, 9));
    r.change_bg(&Rgb::new(1, 22, 255));
    r.change_fg(&Rgb::new(0, 100, 7));
    r.reset_bg();
    r.reset_fg();
    r.hide_cursor();
    r.show_cursor();
    let out = r.flush();
    let expected = "\x1b[2J\x1b[10;5H\x1b[48;2;1;22;255m\x1b[38;2;0;100;7m\x1b[49m\x1b[39m\x1b[?25l\x1b[?25h";
    assert_eq!(out, expected.as_bytes().to_vec());
    assert!(r.flush().is_empty());
}

#[test]
fn encoder_writes_utf8() {
    let mut r = Renderer::new();
    for c in ['a', 'é', '€', '😀'] {
        r.write(c);
    }
    assert_eq!(r.flush(), "aé€😀".as_bytes().to_vec());
}

#[test]
fn first_frame_draws_everything() {
    let mut t = Terminal::new(Vec2::new(2, 1), 2);
    let mut r = Renderer::new();
    t.draw(Point2::new(1, 0), Cell::new('x').fg(Color::rgb(9, 8, 7)));
    t.render_frame(&mut r);
    let expected = "\x1b[1;1H\x1b[49m\x1b[39m \x1b[1;2H\x1b[49m\x1b[39m \
                    \x1b[1;3H\x1b[49m\x1b[38;2;9;8;7mx\x1b[1;4H\x1b[49m\x1b[38;2;9;8;7mx\x1b[1;1H";
    assert_eq!(r.flush(), expected.as_bytes().to_vec());
}

#[test]
fn unchanged_frame_only_resets_cursor() {
    let mut t = Terminal::new(Vec2::new(3, 2), 1);
    let mut r = Renderer::new();
    t.render_frame(&mut r);
    r.flush();
    t.render_frame(&mut r);
    assert_eq!(r.flush(), b"\x1b[1;1H".to_vec());
}

#[test]
fn refilling_with_same_cell_draws_nothing() {
    let mut t = Terminal::new(Vec2::new(2, 1), 1);
    let mut r = Renderer::new();
    let a = Cell::new('x').bg(Color::rgb(1, 2, 3));
    t.fill(a);
    t.render_frame(&mut r);
    let first = r.flush();
    assert_eq!(
        first,
        "\x1b[1;1H\x1b[48;2;1;2;3m\x1b[39mx\x1b[1;2H\x1b[48;2;1;2;3m\x1b[39mx\x1b[1;1H"
            .as_bytes()
            .to_vec()
    );
    t.fill(a);
    t.render_frame(&mut r);
    assert_eq!(r.flush(), b"\x1b[1;1H".to_vec());
}

#[test]
fn only_changed_block_is_redrawn() {
    let mut t = Terminal::new(Vec2::new(2, 2), 1);
    let mut r = Renderer::new();
    t.render_frame(&mut r);
    r.flush();
    t.draw(Point2::new(1, 1), Cell::new('#'));
    assert!(t.at(Point2::new(1, 1)).is_dirty());
    assert!(!t.at(Point2::new(0, 1)).is_dirty());
    t.render_frame(&mut r);
    assert_eq!(r.flush(), "\x1b[2;2H\x1b[49m\x1b[39m#\x1b[1;1H".as_bytes().to_vec());
    t.erase();
    t.render_frame(&mut r);
    assert_eq!(r.flush(), "\x1b[2;2H\x1b[49m\x1b[39m \x1b[1;1H".as_bytes().to_vec());
}

#[test]
fn block_dirty_only_on_change() {
    let mut b = Block::new(Cell::empty(), 1);
    let mut r = Renderer::new();
    assert!(b.is_dirty());
    b.render_cells(Point2::new(0, 0), &mut r);
    assert!(!b.is_dirty());
    b.change_cell(Cell::empty());
    assert!(!b.is_dirty());
    b.change_cell(Cell::new('o'));
    assert!(b.is_dirty());
    assert_eq!(b.get_cell(), Cell::new('o'));
}

#[test]
fn restore_shows_cursor_and_clears() {
    let mut r = Renderer::new();
    Terminal::restore(&mut r);
    assert_eq!(r.flush(), "\x1b[?25h\x1b[2J".as_bytes().to_vec());
}

#[test]
fn grid_size_and_index() {
    let t = Terminal::new(Vec2::new(4, 3), 2);
    assert_eq!(t.size(), Vec2::new(4, 3));
    assert_eq!(t.area(), 12);
    assert_eq!(t.cursor_ratio(), 2);
    assert_eq!(t.block_position_to_buffer_index(Point2::new(1, 2)), 9);
}

#[test]
fn cell_index_round_trip() {
    assert_eq!(cell_index_to_cell_position(23, 10), Point2::new(3, 2));
    assert_eq!(cell_position_to_cell_index(Point2::new(3, 2), 10), 23);
}

#[test]
fn draw_points_marks_each_point_once() {
    let mut t = Terminal::new(Vec2::new(3, 1), 1);
    let mut r = Renderer::new();
    t.render_frame(&mut r);
    r.flush();
    let star = Cell::new('*');
    t.draw_points(&vec![Point2::new(2, 0), Point2::new(0, 0), Point2::new(2, 0)], star);
    assert_eq!(t.at(Point2::new(0, 0)).get_cell(), star);
    assert_eq!(t.at(Point2::new(1, 0)).get_cell(), Cell::empty());
    t.render_frame(&mut r);
    assert_eq!(
        r.flush(),
        "\x1b[1;1H\x1b[49m\x1b[39m*\x1b[1;3H\x1b[49m\x1b[39m*\x1b[1;1H".as_bytes().to_vec()
    );
}
