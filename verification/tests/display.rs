use countdown_tui::font::char_height;
use countdown_tui::font::get_font;
use countdown_tui::font::get_paused_text;
use countdown_tui::font::paused_text_height;
use countdown_tui::font::paused_text_width;
use countdown_tui::time_parser::chars_vec;
use countdown_tui::ui::centered_origin;
use countdown_tui::ui::format_duration;
use countdown_tui::ui::glyph_row_width;

#[test]
fn format_pads_minutes_and_seconds() {
    assert_eq!(format_duration(0), "00:00");
    assert_eq!(format_duration(5), "00:05");
    assert_eq!(format_duration(90), "01:30");
    assert_eq!(format_duration(59 * 60 + 59), "59:59");
}

#[test]
fn format_shows_hours_only_when_present() {
    assert_eq!(format_duration(3600), "01:00:00");
    assert_eq!(format_duration(3723), "01:02:03");
    assert_eq!(format_duration(100 * 3600), "100:00:00");
}

#[test]
fn font_covers_the_colon_and_every_digit() {
    let font = get_font();
    assert_eq!(font.len(), 11);
    let keys: Vec<char> = font.iter().map(|e| e.0).collect();
    assert_eq!(keys, vec![':', '0', '1', '2', '3', '4', '5', '6', '7', '8', '9']);
    for (_, glyph) in &font {
        assert_eq!(glyph.len(), char_height());
    }
}

#[test]
fn every_glyph_has_one_fixed_width() {
    for (ch, glyph) in &get_font() {
        let width = glyph[0].chars().count();
        for row in glyph {
            assert_eq!(row.chars().count(), width, "ragged glyph for {:?}", ch);
        }
    }
}

#[test]
fn glyphs_match_the_drawn_blocks() {
    let font = get_font();
    let one = &font.iter().find(|e| e.0 == '1').unwrap().1;
    assert_eq!(one[0], " ██╗");
    assert_eq!(one[5], " ╚═╝");
    let colon = &font.iter().find(|e| e.0 == ':').unwrap().1;
    assert_eq!(colon[1], "██╗");
}

#[test]
fn paused_banner_dimensions_match_its_text() {
    let text = get_paused_text();
    assert_eq!(text.len(), paused_text_height());
    assert_eq!(text[0].chars().count(), paused_text_width());
    assert_eq!(paused_text_width(), 23);
    assert_eq!(paused_text_height(), 2);
}

#[test]
fn glyph_widths_sum_in_character_cells() {
    let rows: Vec<&str> = vec!["ab", "cde", ""];
    assert_eq!(glyph_row_width(&rows), 5);
    let wide: Vec<&str> = vec!["██╗", "╚═╝"];
    assert_eq!(glyph_row_width(&wide), 6);
}

#[test]
fn centering_splits_the_leftover_space() {
    assert_eq!(centered_origin(80, 10), 35);
    assert_eq!(centered_origin(80, 81), 0);
    assert_eq!(centered_origin(5, 5), 0);
}

#[test]
fn chars_vec_counts_characters_not_bytes() {
    assert_eq!(chars_vec("1h2m"), vec!['1', 'h', '2', 'm']);
    assert_eq!(chars_vec("█▀▄"), vec!['█', '▀', '▄']);
    assert_eq!(chars_vec(""), Vec::<char>::new());
}
