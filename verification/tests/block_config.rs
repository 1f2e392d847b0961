use frameblock::block::{Block, BorderType};
use frameblock::borders::Borders;
use frameblock::geometry::Rect;
use frameblock::padding::Padding;
use frameblock::style::{Color, Modifier, Style};
use frameblock::symbols::BorderSet;
use frameblock::title::{Alignment, Position, Title};
use frameblock::BlockExt;

#[test]
fn create_with_all_borders() {
    let block = Block::bordered();
    assert_eq!(block.borders, Borders::all());
}

#[test]
fn inner_takes_into_account_the_borders() {
    // No borders
    assert_eq!(
        Block::default().inner(Rect::default()),
        Rect::new(0, 0, 0, 0),
        "no borders, width=0, height=0"
    );
    assert_eq!(
        Block::default().inner(Rect::new(0, 0, 1, 1)),
        Rect::new(0, 0, 1, 1),
        "no borders, width=1, height=1"
    );

    // Left border
    assert_eq!(
        Block::default().borders(Borders::left()).inner(Rect::new(0, 0, 0, 1)),
        Rect::new(0, 0, 0, 1),
        "left, width=0"
    );
    assert_eq!(
        Block::default().borders(Borders::left()).inner(Rect::new(0, 0, 1, 1)),
        Rect::new(1, 0, 0, 1),
        "left, width=1"
    );
    assert_eq!(
        Block::default().borders(Borders::left()).inner(Rect::new(0, 0, 2, 1)),
        Rect::new(1, 0, 1, 1),
        "left, width=2"
    );

    // Top border
    assert_eq!(
        Block::default().borders(Borders::top()).inner(Rect::new(0, 0, 1, 0)),
        Rect::new(0, 0, 1, 0),
        "top, height=0"
    );
    assert_eq!(
        Block::default().borders(Borders::top()).inner(Rect::new(0, 0, 1, 1)),
        Rect::new(0, 1, 1, 0),
        "top, height=1"
    );
    assert_eq!(
        Block::default().borders(Borders::top()).inner(Rect::new(0, 0, 1, 2)),
        Rect::new(0, 1, 1, 1),
        "top, height=2"
    );

    // Right border
    assert_eq!(
        Block::default().borders(Borders::right()).inner(Rect::new(0, 0, 0, 1)),
        Rect::new(0, 0, 0, 1),
        "right, width=0"
    );
    assert_eq!(
        Block::default().borders(Borders::right()).inner(Rect::new(0, 0, 1, 1)),
        Rect::new(0, 0, 0, 1),
        "right, width=1"
    );
    assert_eq!(
        Block::default().borders(Borders::right()).inner(Rect::new(0, 0, 2, 1)),
        Rect::new(0, 0, 1, 1),
        "right, width=2"
    );

    // Bottom border
    assert_eq!(
        Block::default().borders(Borders::bottom()).inner(Rect::new(0, 0, 1, 0)),
        Rect::new(0, 0, 1, 0),
        "bottom, height=0"
    );
    assert_eq!(
        Block::default().borders(Borders::bottom()).inner(Rect::new(0, 0, 1, 1)),
        Rect::new(0, 0, 1, 0),
        "bottom, height=1"
    );
    assert_eq!(
        Block::default().borders(Borders::bottom()).inner(Rect::new(0, 0, 1, 2)),
        Rect::new(0, 0, 1, 1),
        "bottom, height=2"
    );

    // All borders
    assert_eq!(
        Block::default().borders(Borders::all()).inner(Rect::default()),
        Rect::new(0, 0, 0, 0),
        "all borders, width=0, height=0"
    );
    assert_eq!(
        Block::default().borders(Borders::all()).inner(Rect::new(0, 0, 1, 1)),
        Rect::new(1, 1, 0, 0),
        "all borders, width=1, height=1"
    );
    assert_eq!(
        Block::default().borders(Borders::all()).inner(Rect::new(0, 0, 2, 2)),
        Rect::new(1, 1, 0, 0),
        "all borders, width=2, height=2"
    );
    assert_eq!(
        Block::default().borders(Borders::all()).inner(Rect::new(0, 0, 3, 3)),
        Rect::new(1, 1, 1, 1),
        "all borders, width=3, height=3"
    );
}

#[test]
fn inner_takes_into_account_the_title() {
    assert_eq!(
        Block::default().title(Title::from("Test")).inner(Rect::new(0, 0, 0, 1)),
        Rect::new(0, 1, 0, 0),
    );
    assert_eq!(
        Block::default()
            .title(Title::from("Test").alignment(Alignment::Center))
            .inner(Rect::new(0, 0, 0, 1)),
        Rect::new(0, 1, 0, 0),
    );
    assert_eq!(
        Block::default()
            .title(Title::from("Test").alignment(Alignment::Right))
            .inner(Rect::new(0, 0, 0, 1)),
        Rect::new(0, 1, 0, 0),
    );
}

#[test]
fn inner_takes_into_account_border_and_title() {
    let test_rect = Rect::new(0, 0, 0, 2);

    let top_top = Block::default()
        .title(Title::from("Test").position(Position::Top))
        .borders(Borders::top());
    assert_eq!(top_top.inner(test_rect), Rect::new(0, 1, 0, 1));

    let top_bot = Block::default()
        .title(Title::from("Test").position(Position::Top))
        .borders(Borders::bottom());
    assert_eq!(top_bot.inner(test_rect), Rect::new(0, 1, 0, 0));

    let bot_top = Block::default()
        .title(Title::from("Test").position(Position::Bottom))
        .borders(Borders::top());
    assert_eq!(bot_top.inner(test_rect), Rect::new(0, 1, 0, 0));

    let bot_bot = Block::default()
        .title(Title::from("Test").position(Position::Bottom))
        .borders(Borders::bottom());
    assert_eq!(bot_bot.inner(test_rect), Rect::new(0, 0, 0, 1));
}

#[test]
fn inner_takes_into_account_merge() {
    let test_rect = Rect::new(1, 1, 5, 5);
    assert_eq!(
        Block::bordered().merge_with(Borders::left()).inner(test_rect),
        Rect::new(1, 2, 4, 3)
    );
    assert_eq!(
        Block::bordered().merge_with(Borders::top()).inner(test_rect),
        Rect::new(2, 1, 3, 4)
    );
    assert_eq!(
        Block::bordered()
            .merge_with(Borders::top())
            .title(Title::from("Test"))
            .inner(test_rect),
        Rect::new(2, 1, 3, 4)
    );
    assert_eq!(
        Block::bordered().merge_with(Borders::right()).inner(test_rect),
        Rect::new(2, 2, 4, 3)
    );
    assert_eq!(
        Block::bordered().merge_with(Borders::bottom()).inner(test_rect),
        Rect::new(2, 2, 3, 4)
    );
    assert_eq!(
        Block::bordered()
            .merge_with(Borders::bottom())
            .title(Title::from("Test"))
            .inner(test_rect),
        Rect::new(2, 2, 3, 4)
    );
}

#[test]
fn have_title_at_position_takes_into_account_all_positioning_declarations() {
    let block = Block::default();
    assert!(!block.have_title_at_position(Position::Top));
    assert!(!block.have_title_at_position(Position::Bottom));

    let block = Block::default().title(Title::from("Test").position(Position::Top));
    assert!(block.have_title_at_position(Position::Top));
    assert!(!block.have_title_at_position(Position::Bottom));

    let block = Block::default().title(Title::from("Test").position(Position::Bottom));
    assert!(!block.have_title_at_position(Position::Top));
    assert!(block.have_title_at_position(Position::Bottom));

    let block = Block::default()
        .title(Title::from("Test").position(Position::Top))
        .title_position(Position::Bottom);
    assert!(block.have_title_at_position(Position::Top));
    assert!(!block.have_title_at_position(Position::Bottom));

    let block = Block::default()
        .title(Title::from("Test").position(Position::Bottom))
        .title_position(Position::Top);
    assert!(!block.have_title_at_position(Position::Top));
    assert!(block.have_title_at_position(Position::Bottom));

    let block = Block::default()
        .title(Title::from("Test").position(Position::Top))
        .title(Title::from("Test").position(Position::Bottom));
    assert!(block.have_title_at_position(Position::Top));
    assert!(block.have_title_at_position(Position::Bottom));

    let block = Block::default()
        .title(Title::from("Test").position(Position::Top))
        .title(Title::from("Test"))
        .title_position(Position::Bottom);
    assert!(block.have_title_at_position(Position::Top));
    assert!(block.have_title_at_position(Position::Bottom));

    let block = Block::default()
        .title(Title::from("Test"))
        .title(Title::from("Test").position(Position::Bottom))
        .title_position(Position::Top);
    assert!(block.have_title_at_position(Position::Top));
    assert!(block.have_title_at_position(Position::Bottom));
}

#[test]
fn border_type_can_be_const() {
    let _plain: BorderSet = BorderType::border_symbols(BorderType::Plain);
}

#[test]
fn block_new() {
    assert_eq!(
        Block::new(),
        Block {
            titles: Vec::new(),
            titles_style: Style::new(),
            titles_alignment: Alignment::Left,
            titles_position: Position::Top,
            borders: Borders::none(),
            merge_borders: Borders::none(),
            border_style: Style::new(),
            border_set: BorderType::Plain.to_border_set(),
            style: Style::new(),
            padding: Padding::zero(),
        }
    )
}

#[test]
fn block_can_be_const() {
    let _default_style: Style = Style::new();
    let default_padding: Padding = Padding::uniform(1);
    let _default_block: Block = Block::new()
        .title_alignment(Alignment::Left)
        .title_position(Position::Top)
        .borders(Borders::all())
        .padding(default_padding);
}

/// This test ensures that we have some coverage on the `Style` conversions
#[test]
fn block_style() {
    // nominal style
    let block = Block::default().style(Style::new().fg(Color::Red));
    assert_eq!(block.style, Style::new().fg(Color::Red));

    // auto-convert from Color
    let block = Block::default().style(Style::from(Color::Red));
    assert_eq!(block.style, Style::new().fg(Color::Red));

    // auto-convert from (Color, Color)
    let block = Block::default().style(Style::from((Color::Red, Color::Blue)));
    assert_eq!(block.style, Style::new().fg(Color::Red).bg(Color::Blue));

    // auto-convert from Modifier
    let block = Block::default().style(Style::from(Modifier::bold().union(Modifier::italic())));
    assert_eq!(
        block.style,
        Style::new().add_modifier(Modifier::bold().union(Modifier::italic()))
    );

    // auto-convert from (Modifier, Modifier)
    let block = Block::default().style(Style::from((
        Modifier::bold().union(Modifier::italic()),
        Modifier::dim(),
    )));
    assert_eq!(
        block.style,
        Style::new()
            .add_modifier(Modifier::bold().union(Modifier::italic()))
            .remove_modifier(Modifier::dim())
    );

    // auto-convert from (Color, Modifier)
    let block = Block::default().style(Style::from((Color::Red, Modifier::bold())));
    assert_eq!(block.style, Style::new().fg(Color::Red).add_modifier(Modifier::bold()));

    // auto-convert from (Color, Color, Modifier)
    let block = Block::default().style(Style::from((Color::Red, Color::Blue, Modifier::bold())));
    assert_eq!(
        block.style,
        Style::new().fg(Color::Red).bg(Color::Blue).add_modifier(Modifier::bold())
    );

    // auto-convert from (Color, Color, Modifier, Modifier)
    let block = Block::default().style(Style::from((
        Color::Red,
        Color::Blue,
        Modifier::bold().union(Modifier::italic()),
        Modifier::dim(),
    )));
    assert_eq!(
        block.style,
        Style::new()
            .fg(Color::Red)
            .bg(Color::Blue)
            .add_modifier(Modifier::bold().union(Modifier::italic()))
            .remove_modifier(Modifier::dim())
    );
}

#[test]
fn can_be_stylized() {
    let block = Block::default().set_style(
        Style::new()
            .fg(Color::Black)
            .bg(Color::White)
            .add_modifier(Modifier::bold())
            .remove_modifier(Modifier::dim()),
    );
    assert_eq!(
        block.style,
        Style::default()
            .fg(Color::Black)
            .bg(Color::White)
            .add_modifier(Modifier::bold())
            .remove_modifier(Modifier::dim())
    )
}

#[test]
fn title_alone_reserves_its_row() {
    // A borderless frame with one top title still insets the row: on a
    // one-by-one area the inner area is one wide, zero tall, one row down.
    let block = Block::default().title(Title::from("Test").position(Position::Top));
    assert_eq!(block.inner(Rect::new(0, 0, 1, 1)), Rect::new(0, 1, 1, 0));
}

#[test]
fn inner_never_grows_under_added_constraints() {
    let area = Rect::new(2, 3, 9, 7);
    let base = Block::default().borders(Borders::left());
    let with_edge = Block::default().borders(Borders::left().union(Borders::top()));
    let with_title = Block::default()
        .borders(Borders::left())
        .title(Title::from("t").position(Position::Bottom));
    let inner = base.inner(area);
    for more in [with_edge.inner(area), with_title.inner(area)] {
        assert!(more.width <= inner.width);
        assert!(more.height <= inner.height);
    }
}

#[test]
fn inner_if_some_falls_back_to_the_area() {
    let area = Rect::new(1, 1, 6, 4);
    let none: Option<Block> = None;
    assert_eq!(none.inner_if_some(area), area);
    let some: Option<Block> = Some(Block::bordered());
    assert_eq!(some.inner_if_some(area), Rect::new(2, 2, 4, 2));
}

#[test]
fn padding_insets_the_inner_area() {
    let block = Block::bordered().padding(Padding::new(1, 2, 3, 4));
    assert_eq!(block.inner(Rect::new(0, 0, 20, 20)), Rect::new(2, 4, 15, 11));
}
