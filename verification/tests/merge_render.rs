use frameblock::block::{Block, BorderType};
use frameblock::borders::Borders;
use frameblock::buffer::{Buffer, Cell};
use frameblock::geometry::Rect;
use frameblock::style::{Color, Modifier, Style};
use frameblock::symbols::BorderSet;
use frameblock::title::{Alignment, Position, Title};

fn buffer_with_lines(lines: &[&str]) -> Buffer {
    let width = lines.iter().map(|line| line.chars().count()).max().unwrap_or(0) as u16;
    let height = lines.len() as u16;
    let mut buf = Buffer::empty(Rect::new(0, 0, width, height));
    for (y, line) in lines.iter().enumerate() {
        for (x, ch) in line.chars().enumerate() {
            buf.put(x as u16, y as u16, ch, Style::new());
        }
    }
    buf
}

#[test]
fn render_merged_plain_border() {
    let mut buffer = Buffer::empty(Rect::new(0, 0, 15, 5));
    let block1_area = Rect::new(0, 0, 10, 5);
    let block2_area = Rect::new(10, 0, 5, 3);
    let block3_area = Rect::new(10, 3, 5, 2);
    Block::default()
        .borders(Borders::all())
        .border_type(BorderType::Plain)
        .render(block1_area, &mut buffer);
    Block::default()
        .borders(Borders::all())
        .border_type(BorderType::Plain)
        .merge_with(Borders::left())
        .render(block2_area, &mut buffer);
    Block::default()
        .borders(Borders::all())
        .border_type(BorderType::Plain)
        .merge_with(Borders::left().union(Borders::top()))
        .render(block3_area, &mut buffer);
    assert_eq!(
        buffer,
        buffer_with_lines(&[
            "┌────────┬────┐",
            "│        │    │",
            "│        ├────┤",
            "│        │    │",
            "└────────┴────┘",
        ])
    );
}

#[test]
fn render_merged_rounded_border() {
    let mut buffer = Buffer::empty(Rect::new(0, 0, 15, 5));
    let block1_area = Rect::new(0, 0, 10, 5);
    let block2_area = Rect::new(10, 0, 5, 3);
    let block3_area = Rect::new(10, 3, 5, 2);
    Block::default()
        .borders(Borders::all())
        .border_type(BorderType::Rounded)
        .render(block1_area, &mut buffer);
    Block::default()
        .borders(Borders::all())
        .border_type(BorderType::Rounded)
        .merge_with(Borders::left())
        .render(block2_area, &mut buffer);
    Block::default()
        .borders(Borders::all())
        .border_type(BorderType::Rounded)
        .merge_with(Borders::top().union(Borders::left()))
        .render(block3_area, &mut buffer);
    assert_eq!(
        buffer,
        buffer_with_lines(&[
            "╭────────┬────╮",
            "│        │    │",
            "│        ├────┤",
            "│        │    │",
            "╰────────┴────╯",
        ])
    );
}

#[test]
fn render_merged_solid_border() {
    let mut buffer = Buffer::empty(Rect::new(0, 0, 15, 5));
    let block1_area = Rect::new(0, 0, 10, 5);
    let block2_area = Rect::new(10, 0, 5, 3);
    let block3_area = Rect::new(10, 3, 5, 2);
    Block::default()
        .borders(Borders::all())
        .border_type(BorderType::Thick)
        .render(block1_area, &mut buffer);
    Block::default()
        .borders(Borders::all())
        .border_type(BorderType::Thick)
        .merge_with(Borders::left())
        .render(block2_area, &mut buffer);
    Block::default()
        .borders(Borders::all())
        .border_type(BorderType::Thick)
        .merge_with(Borders::top().union(Borders::left()))
        .render(block3_area, &mut buffer);
    assert_eq!(
        buffer,
        buffer_with_lines(&[
            "┏━━━━━━━━┳━━━━┓",
            "┃        ┃    ┃",
            "┃        ┣━━━━┫",
            "┃        ┃    ┃",
            "┗━━━━━━━━┻━━━━┛",
        ])
    );
}

#[test]
fn render_merged_double_border() {
    let mut buffer = Buffer::empty(Rect::new(0, 0, 15, 5));
    let block1_area = Rect::new(0, 0, 10, 5);
    let block2_area = Rect::new(10, 0, 5, 3);
    let block3_area = Rect::new(10, 3, 5, 2);
    Block::default()
        .borders(Borders::all())
        .border_type(BorderType::Double)
        .render(block1_area, &mut buffer);
    Block::default()
        .borders(Borders::all())
        .border_type(BorderType::Double)
        .merge_with(Borders::left())
        .render(block2_area, &mut buffer);
    Block::default()
        .borders(Borders::all())
        .border_type(BorderType::Double)
        .merge_with(Borders::top().union(Borders::left()))
        .render(block3_area, &mut buffer);
    assert_eq!(
        buffer,
        buffer_with_lines(&[
            "╔════════╦════╗",
            "║        ║    ║",
            "║        ╠════╣",
            "║        ║    ║",
            "╚════════╩════╝",
        ])
    );
}

#[test]
fn render_merged_quadrant_outside() {
    let mut buffer = Buffer::empty(Rect::new(0, 0, 15, 5));
    let block1_area = Rect::new(0, 0, 10, 5);
    let block2_area = Rect::new(10, 0, 5, 3);
    let block3_area = Rect::new(10, 3, 5, 2);
    Block::default()
        .borders(Borders::all())
        .border_type(BorderType::QuadrantOutside)
        .render(block1_area, &mut buffer);
    Block::default()
        .borders(Borders::all())
        .border_type(BorderType::QuadrantOutside)
        .merge_with(Borders::left())
        .render(block2_area, &mut buffer);
    Block::default()
        .borders(Borders::all())
        .border_type(BorderType::QuadrantOutside)
        .merge_with(Borders::top().union(Borders::left()))
        .render(block3_area, &mut buffer);
    assert_eq!(
        buffer,
        buffer_with_lines(&[
            "▛▀▀▀▀▀▀▀▀█▀▀▀▀▜",
            "▌        ▐    ▐",
            "▌        █▄▄▄▄█",
            "▌        ▐    ▐",
            "▙▄▄▄▄▄▄▄▄█▄▄▄▄▟",
        ])
    );
}

#[test]
fn render_merged_quadrant_inside() {
    let mut buffer = Buffer::empty(Rect::new(0, 0, 15, 5));
    let block1_area = Rect::new(0, 0, 10, 5);
    let block2_area = Rect::new(10, 0, 5, 3);
    let block3_area = Rect::new(10, 3, 5, 2);
    Block::default()
        .borders(Borders::all())
        .border_type(BorderType::QuadrantInside)
        .render(block1_area, &mut buffer);
    Block::default()
        .borders(Borders::all())
        .border_type(BorderType::QuadrantInside)
        .merge_with(Borders::left())
        .render(block2_area, &mut buffer);
    Block::default()
        .borders(Borders::all())
        .border_type(BorderType::QuadrantInside)
        .merge_with(Borders::top().union(Borders::left()))
        .render(block3_area, &mut buffer);
    assert_eq!(
        buffer,
        buffer_with_lines(&[
            "▗▄▄▄▄▄▄▄▄█▄▄▄▄▖",
            "▐        ▌    ▌",
            "▐        █▀▀▀▀█",
            "▐        ▌    ▌",
            "▝▀▀▀▀▀▀▀▀█▀▀▀▀▘",
        ])
    );
}

#[test]
fn render_merged_with_cross() {
    let mut buffer = Buffer::empty(Rect::new(0, 0, 15, 5));
    let block1_area = Rect::new(0, 0, 10, 3);
    let block2_area = Rect::new(0, 3, 10, 2);
    let block3_area = Rect::new(10, 0, 5, 3);
    let block4_area = Rect::new(10, 3, 5, 2);
    Block::default()
        .borders(Borders::all())
        .border_type(BorderType::Plain)
        .render(block1_area, &mut buffer);
    Block::default()
        .borders(Borders::all())
        .border_type(BorderType::Plain)
        .merge_with(Borders::top())
        .render(block2_area, &mut buffer);
    Block::default()
        .borders(Borders::all())
        .border_type(BorderType::Plain)
        .merge_with(Borders::left())
        .render(block3_area, &mut buffer);
    Block::default()
        .borders(Borders::all())
        .border_type(BorderType::Plain)
        .merge_with(Borders::left().union(Borders::top()))
        .render(block4_area, &mut buffer);
    assert_eq!(
        buffer,
        buffer_with_lines(&[
            "┌────────┬────┐",
            "│        │    │",
            "├────────┼────┤",
            "│        │    │",
            "└────────┴────┘",
        ])
    );
}

#[test]
fn render_merged_custom_set() {
    let mut buffer = Buffer::empty(Rect::new(0, 0, 15, 5));
    let block1_area = Rect::new(0, 0, 10, 3);
    let block2_area = Rect::new(0, 3, 10, 2);
    let block3_area = Rect::new(10, 0, 5, 3);
    let block4_area = Rect::new(10, 3, 5, 2);
    let set = BorderSet {
        top_left: '1',
        top_right: '2',
        bottom_left: '3',
        bottom_right: '4',
        vertical_left: 'L',
        vertical_right: 'R',
        horizontal_top: 'T',
        horizontal_bottom: 'B',
        vertical_t_left: '<',
        vertical_t_right: '>',
        horizontal_t_down: 'v',
        horizontal_t_up: '^',
        cross: 'C',
    };
    Block::default()
        .borders(Borders::all())
        .border_set(set)
        .render(block1_area, &mut buffer);
    Block::default()
        .borders(Borders::all())
        .border_set(set)
        .merge_with(Borders::top())
        .render(block2_area, &mut buffer);
    Block::default()
        .borders(Borders::all())
        .border_set(set)
        .merge_with(Borders::left())
        .render(block3_area, &mut buffer);
    Block::default()
        .borders(Borders::all())
        .border_set(set)
        .merge_with(Borders::left().union(Borders::top()))
        .render(block4_area, &mut buffer);
    assert_eq!(
        buffer,
        buffer_with_lines(&[
            "1TTTTTTTTvTTTT2",
            "L        R    R",
            ">BBBBBBBBCBBBB<",
            "L        R    R",
            "3BBBBBBBB^BBBB4",
        ])
    );
}

#[test]
fn render_merged_with_title() {
    let mut buffer = Buffer::empty(Rect::new(0, 0, 15, 5));
    let block1_area = Rect::new(0, 0, 10, 3);
    let block2_area = Rect::new(0, 3, 10, 2);
    let block3_area = Rect::new(10, 0, 5, 3);
    let block4_area = Rect::new(10, 3, 5, 2);
    Block::default()
        .borders(Borders::all())
        .border_type(BorderType::Plain)
        .title(
            Title::from("^1")
                .position(Position::Bottom)
                .alignment(Alignment::Right),
        )
        .render(block1_area, &mut buffer);
    Block::default()
        .borders(Borders::all())
        .border_type(BorderType::Plain)
        .merge_with(Borders::top())
        .title(Title::from("2"))
        .render(block2_area, &mut buffer);
    Block::default()
        .borders(Borders::all())
        .border_type(BorderType::Plain)
        .merge_with(Borders::left())
        .title(Title::from("3"))
        .render(block3_area, &mut buffer);
    Block::default()
        .borders(Borders::all())
        .border_type(BorderType::Plain)
        .title(Title::from("4"))
        .merge_with(Borders::left().union(Borders::top()))
        .render(block4_area, &mut buffer);
    assert_eq!(
        buffer,
        buffer_with_lines(&[
            "┌────────┬3───┐",
            "│        │    │",
            "├2─────^1┼4───┤",
            "│        │    │",
            "└────────┴────┘",
        ])
    );
}

#[test]
fn corner_composition_twice_yields_the_same_cell() {
    // Composing the same merge mask onto an already composed corner cell
    // changes nothing, for every line-drawing theme, corner and mask.
    let masks = [
        Borders::left(),
        Borders::top(),
        Borders::left().union(Borders::top()),
        Borders::right(),
        Borders::bottom(),
        Borders::right().union(Borders::bottom()),
    ];
    for border_type in [
        BorderType::Plain,
        BorderType::Rounded,
        BorderType::Double,
        BorderType::Thick,
    ] {
        let set = border_type.to_border_set();
        let block = Block::default()
            .border_set(set)
            .border_style(Style::new().fg(Color::Green));
        for start in [set.top_left, set.bottom_right, set.vertical_left, set.cross] {
            for mask in masks {
                let mut cell = Cell {
                    symbol: start,
                    fg: Color::Reset,
                    bg: Color::Reset,
                    modifier: Modifier::none(),
                };
                assert!(block.render_merged_corner(&mut cell, mask));
                let once = cell;
                assert!(block.render_merged_corner(&mut cell, mask));
                assert_eq!(cell, once);
            }
        }
    }
}
