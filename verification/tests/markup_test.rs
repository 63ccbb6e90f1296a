use waybuilder::ui::markup::{BlockKind, InlineKind, Look, Markup, Piece, header_block_count, markup_lines};

fn flat(lines: &Vec<Vec<Piece>>) -> Vec<Vec<(String, Look)>> {
    lines.iter().map(|l| l.iter().map(|p| (p.text.clone(), p.look)).collect()).collect()
}

fn s(t: &str) -> String {
    t.to_string()
}

#[test]
fn runs_share_a_line_until_a_break() {
    let spans = vec![
        Markup::Text(s("Strike ")),
        Markup::Bold(s("twice")),
        Markup::Newline,
        Markup::Italic(s("then rest")),
    ];
    let lines = flat(&markup_lines(&spans));
    assert_eq!(
        lines,
        vec![
            vec![(s("Strike "), Look::Plain), (s("twice"), Look::Bold)],
            vec![(s("then rest"), Look::Italic)],
        ]
    );
}

#[test]
fn empty_input_has_no_lines() {
    assert!(markup_lines(&vec![]).is_empty());
    assert!(markup_lines(&vec![Markup::Newline, Markup::Newline]).is_empty());
}

#[test]
fn titles_start_lines_with_their_level_look() {
    let spans = vec![
        Markup::Text(s("intro")),
        Markup::Title { text: s("Fireball"), level: 1 },
        Markup::Title { text: s("Heightened"), level: 2 },
        Markup::Title { text: s("Notes"), level: 3 },
        Markup::Text(s(" tail")),
    ];
    let lines = flat(&markup_lines(&spans));
    assert_eq!(
        lines,
        vec![
            vec![(s("intro"), Look::Plain)],
            vec![(s("Fireball"), Look::TitleTop)],
            vec![(s("Heightened"), Look::TitleSub)],
            vec![(s("Notes"), Look::TitleMinor), (s(" tail"), Look::Plain)],
        ]
    );
}

#[test]
fn traits_are_padded_and_followed_by_a_space() {
    let spans = vec![Markup::Trait(s("Fire")), Markup::Action(s("◆")), Markup::Link(s("Burn"))];
    let lines = flat(&markup_lines(&spans));
    assert_eq!(
        lines,
        vec![vec![
            (s(" Fire "), Look::Tag),
            (s(" "), Look::Plain),
            (s(" ◆ "), Look::Action),
            (s("Burn"), Look::Link),
        ]]
    );
}

#[test]
fn a_rule_is_a_line_of_its_own() {
    let spans = vec![Markup::Text(s("a")), Markup::HRule, Markup::HRule];
    let lines = flat(&markup_lines(&spans));
    let rule = "─".repeat(40);
    assert_eq!(
        lines,
        vec![vec![(s("a"), Look::Plain)], vec![(rule.clone(), Look::Rule)], vec![(rule, Look::Rule)]]
    );
}

#[test]
fn list_items_keep_only_inline_runs() {
    let spans = vec![
        Markup::Text(s("before")),
        Markup::ListItem(vec![
            Markup::Text(s("one ")),
            Markup::Link(s("two")),
            Markup::Trait(s("Rare")),
            Markup::Newline,
            Markup::Action(s("◆")),
        ]),
        Markup::Bold(s(" after")),
    ];
    let lines = flat(&markup_lines(&spans));
    assert_eq!(
        lines,
        vec![
            vec![(s("before"), Look::Plain)],
            vec![
                (s("  • "), Look::Plain),
                (s("one "), Look::Plain),
                (s("two"), Look::ListLink),
                (s(" Rare "), Look::Tag),
                (s(" after"), Look::Bold),
            ],
        ]
    );
}

#[test]
fn table_cells_are_joined_by_bars() {
    let spans = vec![
        Markup::TableHeader(vec![s("Level"), s("Damage")]),
        Markup::TableRow(vec![s("1"), s("2d6")]),
        Markup::TableRow(vec![]),
        Markup::AsideTitle(s("Note")),
    ];
    let lines = flat(&markup_lines(&spans));
    assert_eq!(
        lines,
        vec![
            vec![(s("Level │ Damage"), Look::Bold)],
            vec![(s("1 │ 2d6"), Look::Plain)],
            vec![(s(""), Look::Plain)],
            vec![(s("Note"), Look::Aside)],
        ]
    );
}

#[test]
fn header_blocks_are_counted_through_the_rule() {
    let blocks = vec![
        BlockKind::Title(1),
        BlockKind::Paragraph(vec![InlineKind::Trait, InlineKind::Trait]),
        BlockKind::KeyValue(s("Source")),
        BlockKind::HRule,
        BlockKind::Paragraph(vec![InlineKind::Other]),
    ];
    assert_eq!(header_block_count(&blocks), 4);
}

#[test]
fn header_stops_at_body_text() {
    let blocks = vec![
        BlockKind::Title(1),
        BlockKind::Paragraph(vec![InlineKind::Action]),
        BlockKind::Paragraph(vec![InlineKind::Trait, InlineKind::Other]),
        BlockKind::HRule,
    ];
    assert_eq!(header_block_count(&blocks), 2);
}

#[test]
fn header_needs_a_top_level_title_to_skip_it() {
    let blocks = vec![BlockKind::Title(2), BlockKind::Paragraph(vec![])];
    assert_eq!(header_block_count(&blocks), 0);
    let blocks = vec![BlockKind::KeyValue(s("Traditions")), BlockKind::HRule];
    assert_eq!(header_block_count(&blocks), 0);
    let blocks = vec![BlockKind::Paragraph(vec![]), BlockKind::KeyValue(s("Source"))];
    assert_eq!(header_block_count(&blocks), 2);
    assert_eq!(header_block_count(&vec![]), 0);
}
