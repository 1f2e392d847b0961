use frameblock::block::Block;
use frameblock::borders::Borders;
use frameblock::buffer::Buffer;
use frameblock::geometry::Rect;
use frameblock::style::{Color, Style};
use frameblock::title::{Alignment, Line, Position, Title};

fn buffer_with_lines(lines: &[&str]) -> Buffer {
    let width = lines.iter().map(|line| line.chars().count()).max().unwrap_or(0) as u16;
    let height = lines.len() as u16;
    let mut buf = Buffer::empty(Rect::new(0, 0, width, height));
    for (y, line) in lines.iter().enumerate() {
        for (x, ch) in line.chars().enumerate() {
            buf.put(x as u16, y as u16, ch, Style::new());
        }
    }
    buf
}

#[test]
fn title() {
    let mut buffer = Buffer::empty(Rect::new(0, 0, 15, 3));
    Block::bordered()
        .title(Title::from("A").position(Position::Top).alignment(Alignment::Left))
        .title(Title::from("B").position(Position::Top).alignment(Alignment::Center))
        .title(Title::from("C").position(Position::Top).alignment(Alignment::Right))
        .title(Title::from("D").position(Position::Bottom).alignment(Alignment::Left))
        .title(Title::from("E").position(Position::Bottom).alignment(Alignment::Center))
        .title(Title::from("F").position(Position::Bottom).alignment(Alignment::Right))
        .render(buffer.area, &mut buffer);
    assert_eq!(
        buffer,
        buffer_with_lines(&[
            "┌A─────B─────C┐",
            "│             │",
            "└D─────E─────F┘",
        ])
    );
}

#[test]
fn title_top_bottom() {
    let mut buffer = Buffer::empty(Rect::new(0, 0, 15, 3));
    Block::bordered()
        .title_top(Line::raw("A").left_aligned())
        .title_top(Line::raw("B").centered())
        .title_top(Line::raw("C").right_aligned())
        .title_bottom(Line::raw("D").left_aligned())
        .title_bottom(Line::raw("E").centered())
        .title_bottom(Line::raw("F").right_aligned())
        .render(buffer.area, &mut buffer);
    assert_eq!(
        buffer,
        buffer_with_lines(&[
            "┌A─────B─────C┐",
            "│             │",
            "└D─────E─────F┘",
        ])
    );
}

#[test]
fn title_alignment() {
    let tests = vec![
        (Alignment::Left, "test    "),
        (Alignment::Center, "  test  "),
        (Alignment::Right, "    test"),
    ];
    for (alignment, expected) in tests {
        let mut buffer = Buffer::empty(Rect::new(0, 0, 8, 1));
        Block::default()
            .title(Title::from("test"))
            .title_alignment(alignment)
            .render(buffer.area, &mut buffer);
        assert_eq!(buffer, buffer_with_lines(&[expected]));
    }
}

#[test]
fn title_alignment_overrides_block_title_alignment() {
    let tests = vec![
        (Alignment::Right, Alignment::Left, "test    "),
        (Alignment::Left, Alignment::Center, "  test  "),
        (Alignment::Center, Alignment::Right, "    test"),
    ];
    for (block_title_alignment, alignment, expected) in tests {
        let mut buffer = Buffer::empty(Rect::new(0, 0, 8, 1));
        Block::default()
            .title(Title::from("test").alignment(alignment))
            .title_alignment(block_title_alignment)
            .render(buffer.area, &mut buffer);
        assert_eq!(buffer, buffer_with_lines(&[expected]));
    }
}

#[test]
fn render_right_aligned_empty_title() {
    let mut buffer = Buffer::empty(Rect::new(0, 0, 15, 3));
    Block::default()
        .title(Title::from(""))
        .title_alignment(Alignment::Right)
        .render(buffer.area, &mut buffer);
    assert_eq!(
        buffer,
        buffer_with_lines(&[
            "               ",
            "               ",
            "               ",
        ])
    );
}

#[test]
fn title_position() {
    let mut buffer = Buffer::empty(Rect::new(0, 0, 4, 2));
    Block::default()
        .title(Title::from("test"))
        .title_position(Position::Bottom)
        .render(buffer.area, &mut buffer);
    assert_eq!(buffer, buffer_with_lines(&["    ", "test"]));
}

#[test]
fn title_content_style() {
    for alignment in [Alignment::Left, Alignment::Center, Alignment::Right] {
        let mut buffer = Buffer::empty(Rect::new(0, 0, 4, 1));
        Block::default()
            .title(Title::from_line(Line::styled("test", Style::new().fg(Color::Yellow))))
            .title_alignment(alignment)
            .render(buffer.area, &mut buffer);

        let mut expected_buffer = buffer_with_lines(&["test"]);
        expected_buffer.set_style(Rect::new(0, 0, 4, 1), Style::new().fg(Color::Yellow));

        assert_eq!(buffer, expected_buffer);
    }
}

#[test]
fn block_title_style() {
    for alignment in [Alignment::Left, Alignment::Center, Alignment::Right] {
        let mut buffer = Buffer::empty(Rect::new(0, 0, 4, 1));
        Block::default()
            .title(Title::from("test"))
            .title_style(Style::new().fg(Color::Yellow))
            .title_alignment(alignment)
            .render(buffer.area, &mut buffer);

        let mut expected_buffer = buffer_with_lines(&["test"]);
        expected_buffer.set_style(Rect::new(0, 0, 4, 1), Style::new().fg(Color::Yellow));

        assert_eq!(buffer, expected_buffer);
    }
}

#[test]
fn title_style_overrides_block_title_style() {
    for alignment in [Alignment::Left, Alignment::Center, Alignment::Right] {
        let mut buffer = Buffer::empty(Rect::new(0, 0, 4, 1));
        Block::default()
            .title(Title::from_line(Line::styled("test", Style::new().fg(Color::Yellow))))
            .title_style(Style::new().fg(Color::Green).bg(Color::Red))
            .title_alignment(alignment)
            .render(buffer.area, &mut buffer);

        let mut expected_buffer = buffer_with_lines(&["test"]);
        expected_buffer.set_style(
            Rect::new(0, 0, 4, 1),
            Style::new().fg(Color::Yellow).bg(Color::Red),
        );

        assert_eq!(buffer, expected_buffer);
    }
}

#[test]
fn title_border_style() {
    let mut buffer = Buffer::empty(Rect::new(0, 0, 15, 3));
    Block::default()
        .title(Title::from("test"))
        .borders(Borders::all())
        .border_style(Style::new().fg(Color::Yellow))
        .render(buffer.area, &mut buffer);

    let mut expected_buffer = buffer_with_lines(&[
        "┌test─────────┐",
        "│             │",
        "└─────────────┘",
    ]);
    expected_buffer.set_style(Rect::new(0, 0, 15, 3), Style::new().fg(Color::Yellow));
    expected_buffer.set_style(Rect::new(1, 1, 13, 1), Style::reset());

    assert_eq!(buffer, expected_buffer);
}

#[test]
fn same_alignment_titles_keep_declaration_order() {
    let mut buffer = Buffer::empty(Rect::new(0, 0, 8, 1));
    Block::default()
        .title(Title::from("A"))
        .title(Title::from("B"))
        .render(buffer.area, &mut buffer);
    assert_eq!(buffer, buffer_with_lines(&["A B     "]));

    let mut buffer = Buffer::empty(Rect::new(0, 0, 8, 1));
    Block::default()
        .title(Title::from("A").alignment(Alignment::Right))
        .title(Title::from("B").alignment(Alignment::Right))
        .render(buffer.area, &mut buffer);
    assert_eq!(buffer, buffer_with_lines(&["     A B"]));
}

#[test]
fn centered_titles_ignore_side_title_space() {
    let mut only_mid = Buffer::empty(Rect::new(0, 0, 12, 1));
    Block::default()
        .title(Title::from("mid").alignment(Alignment::Center))
        .render(only_mid.area, &mut only_mid);
    assert_eq!(only_mid, buffer_with_lines(&["    mid     "]));

    // Flanking titles consume row space, yet the centered block starts at
    // the same column, computed against the full row width.
    let mut busy = Buffer::empty(Rect::new(0, 0, 12, 1));
    Block::default()
        .title(Title::from("lf").alignment(Alignment::Left))
        .title(Title::from("mid").alignment(Alignment::Center))
        .title(Title::from("rt").alignment(Alignment::Right))
        .render(busy.area, &mut busy);
    assert_eq!(busy, buffer_with_lines(&["lf  mid   rt"]));
}

#[test]
fn inner_area_round_trip() {
    // The inner area queried before the render bounds a child exactly: a
    // child filling it covers just those cells, and the border and title
    // cells of the full render stay as drawn.
    let outer = Rect::new(0, 0, 10, 4);
    let block = Block::bordered().title(Title::from("T"));
    let inner = block.inner(outer);
    assert_eq!(inner, Rect::new(1, 1, 8, 2));

    let mut buffer = Buffer::empty(outer);
    block.render(outer, &mut buffer);
    let rendered = buffer.clone();
    for y in inner.y..inner.y + inner.height {
        for x in inner.x..inner.x + inner.width {
            buffer.put(x, y, 'x', Style::new());
        }
    }
    for y in 0..4u16 {
        for x in 0..10u16 {
            let inside = inner.x <= x && x < inner.x + inner.width && inner.y <= y && y
                < inner.y + inner.height;
            if inside {
                assert_eq!(buffer.get(x, y).symbol, 'x');
            } else {
                assert_eq!(buffer.get(x, y), rendered.get(x, y));
            }
        }
    }
}

#[test]
fn overflowing_titles_truncate_on_the_trailing_side() {
    let mut buffer = Buffer::empty(Rect::new(0, 0, 6, 1));
    Block::default()
        .title(Title::from("overflowing"))
        .render(buffer.area, &mut buffer);
    assert_eq!(buffer, buffer_with_lines(&["overfl"]));
}
