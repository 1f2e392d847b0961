use frameblock::block::{Block, BorderType};
use frameblock::borders::Borders;
use frameblock::buffer::Buffer;
use frameblock::geometry::Rect;
use frameblock::style::Style;
use frameblock::symbols::BorderSet;

fn buffer_with_lines(lines: &[&str]) -> Buffer {
    let width = lines.iter().map(|line| line.chars().count()).max().unwrap_or(0) as u16;
    let height = lines.len() as u16;
    let mut buf = Buffer::empty(Rect::new(0, 0, width, height));
    for (y, line) in lines.iter().enumerate() {
        for (x, ch) in line.chars().enumerate() {
            buf.put(x as u16, y as u16, ch, Style::new());
        }
    }
    buf
}

#[test]
fn border_type_to_string() {
    assert_eq!(BorderType::Plain.name(), "Plain");
    assert_eq!(BorderType::Rounded.name(), "Rounded");
    assert_eq!(BorderType::Double.name(), "Double");
    assert_eq!(BorderType::Thick.name(), "Thick");
}

#[test]
fn border_type_from_str() {
    assert_eq!(BorderType::from_name("Plain"), Some(BorderType::Plain));
    assert_eq!(BorderType::from_name("Rounded"), Some(BorderType::Rounded));
    assert_eq!(BorderType::from_name("Double"), Some(BorderType::Double));
    assert_eq!(BorderType::from_name("Thick"), Some(BorderType::Thick));
    assert_eq!(BorderType::from_name(""), None);
}

#[test]
fn border_type_names_round_trip() {
    for border_type in [
        BorderType::Plain,
        BorderType::Rounded,
        BorderType::Double,
        BorderType::Thick,
        BorderType::QuadrantInside,
        BorderType::QuadrantOutside,
    ] {
        assert_eq!(BorderType::from_name(&border_type.name()), Some(border_type));
    }
}

#[test]
fn render_plain_border() {
    let mut buffer = Buffer::empty(Rect::new(0, 0, 15, 3));
    Block::default()
        .borders(Borders::all())
        .border_type(BorderType::Plain)
        .render(buffer.area, &mut buffer);
    assert_eq!(
        buffer,
        buffer_with_lines(&[
            "┌─────────────┐",
            "│             │",
            "└─────────────┘",
        ])
    );
}

#[test]
fn render_rounded_border() {
    let mut buffer = Buffer::empty(Rect::new(0, 0, 15, 3));
    Block::default()
        .borders(Borders::all())
        .border_type(BorderType::Rounded)
        .render(buffer.area, &mut buffer);
    assert_eq!(
        buffer,
        buffer_with_lines(&[
            "╭─────────────╮",
            "│             │",
            "╰─────────────╯",
        ])
    );
}

#[test]
fn render_double_border() {
    let mut buffer = Buffer::empty(Rect::new(0, 0, 15, 3));
    Block::default()
        .borders(Borders::all())
        .border_type(BorderType::Double)
        .render(buffer.area, &mut buffer);
    assert_eq!(
        buffer,
        buffer_with_lines(&[
            "╔═════════════╗",
            "║             ║",
            "╚═════════════╝",
        ])
    );
}

#[test]
fn render_quadrant_inside() {
    let mut buffer = Buffer::empty(Rect::new(0, 0, 15, 3));
    Block::default()
        .borders(Borders::all())
        .border_type(BorderType::QuadrantInside)
        .render(buffer.area, &mut buffer);
    assert_eq!(
        buffer,
        buffer_with_lines(&[
            "▗▄▄▄▄▄▄▄▄▄▄▄▄▄▖",
            "▐             ▌",
            "▝▀▀▀▀▀▀▀▀▀▀▀▀▀▘",
        ])
    );
}

#[test]
fn render_border_quadrant_outside() {
    let mut buffer = Buffer::empty(Rect::new(0, 0, 15, 3));
    Block::default()
        .borders(Borders::all())
        .border_type(BorderType::QuadrantOutside)
        .render(buffer.area, &mut buffer);
    assert_eq!(
        buffer,
        buffer_with_lines(&[
            "▛▀▀▀▀▀▀▀▀▀▀▀▀▀▜",
            "▌             ▐",
            "▙▄▄▄▄▄▄▄▄▄▄▄▄▄▟",
        ])
    );
}

#[test]
fn render_solid_border() {
    let mut buffer = Buffer::empty(Rect::new(0, 0, 15, 3));
    Block::default()
        .borders(Borders::all())
        .border_type(BorderType::Thick)
        .render(buffer.area, &mut buffer);
    assert_eq!(
        buffer,
        buffer_with_lines(&[
            "┏━━━━━━━━━━━━━┓",
            "┃             ┃",
            "┗━━━━━━━━━━━━━┛",
        ])
    );
}

#[test]
fn render_custom_border_set() {
    let mut buffer = Buffer::empty(Rect::new(0, 0, 15, 3));
    Block::default()
        .borders(Borders::all())
        .border_set(BorderSet {
            top_left: '1',
            top_right: '2',
            bottom_left: '3',
            bottom_right: '4',
            vertical_left: 'L',
            vertical_right: 'R',
            horizontal_top: 'T',
            horizontal_bottom: 'B',
            vertical_t_left: ' ',
            vertical_t_right: ' ',
            horizontal_t_down: ' ',
            horizontal_t_up: ' ',
            cross: ' ',
        })
        .render(buffer.area, &mut buffer);
    assert_eq!(
        buffer,
        buffer_with_lines(&[
            "1TTTTTTTTTTTTT2",
            "L             R",
            "3BBBBBBBBBBBBB4",
        ])
    );
}

#[test]
fn render_outside_the_grid_is_ignored() {
    // A frame whose area misses the grid entirely leaves it untouched.
    let mut buffer = Buffer::empty(Rect::new(0, 0, 4, 2));
    Block::bordered().render(Rect::new(10, 10, 4, 2), &mut buffer);
    assert_eq!(buffer, Buffer::empty(Rect::new(0, 0, 4, 2)));
}

#[test]
fn render_on_one_cell_area() {
    // With a one-cell area the four corner passes hit the same cell; the
    // top-left corner is resolved last and wins.
    let mut buffer = Buffer::empty(Rect::new(0, 0, 1, 1));
    Block::default()
        .borders(Borders::all())
        .border_type(BorderType::Plain)
        .render(buffer.area, &mut buffer);
    assert_eq!(buffer, buffer_with_lines(&["┌"]));
}
