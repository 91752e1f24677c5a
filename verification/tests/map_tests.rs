use game_logic::map::{parse_map, MapTile, TileKind};

fn tile(x: u32, y: u32, kind: TileKind) -> MapTile {
    MapTile { x, y, kind }
}

#[test]
fn parses_rows_top_down() {
    let layout = parse_map("..#\n,~.\n");
    assert_eq!(layout.size_x, 3);
    assert_eq!(layout.size_y, 2);
    assert_eq!(
        layout.tiles,
        vec![
            tile(0, 1, TileKind::Grass),
            tile(1, 1, TileKind::Grass),
            tile(2, 1, TileKind::Stone),
            tile(0, 0, TileKind::Dirt),
            tile(1, 0, TileKind::Water),
            tile(2, 0, TileKind::Grass),
        ]
    );
}

#[test]
fn empty_text_gives_empty_map() {
    let layout = parse_map("");
    assert_eq!(layout.size_x, 0);
    assert_eq!(layout.size_y, 0);
    assert!(layout.tiles.is_empty());
}

#[test]
fn empty_lines_are_skipped() {
    let layout = parse_map("\n\n#\n\n.#\n");
    assert_eq!(layout.size_y, 2);
    assert_eq!(layout.size_x, 1);
    assert_eq!(
        layout.tiles,
        vec![tile(0, 1, TileKind::Stone), tile(0, 0, TileKind::Grass), tile(1, 0, TileKind::Stone)]
    );
}

#[test]
fn crlf_line_endings_are_dropped() {
    let layout = parse_map("#~\r\n,.\r\n");
    assert_eq!(layout.size_x, 2);
    assert_eq!(layout.size_y, 2);
    assert_eq!(layout.tiles.len(), 4);
    assert_eq!(layout.tiles[1], tile(1, 1, TileKind::Water));
}

#[test]
fn lone_carriage_return_is_a_tile() {
    // A `\r` that no `\n` follows stays in the line, as with `str::lines`.
    let layout = parse_map("#\r.\n#\r");
    assert_eq!(layout.size_y, 2);
    assert_eq!(layout.size_x, 3);
    assert_eq!(layout.tiles.len(), 5);
    assert_eq!(layout.tiles[1], tile(1, 1, TileKind::Grass));
    assert_eq!(layout.tiles[4], tile(1, 0, TileKind::Grass));
}

#[test]
fn last_line_needs_no_newline() {
    let layout = parse_map("#\n##");
    assert_eq!(layout.size_y, 2);
    assert_eq!(layout.tiles.len(), 3);
    assert_eq!(layout.tiles[2], tile(1, 0, TileKind::Stone));
}

#[test]
fn width_counts_bytes_and_tiles_count_characters() {
    // 'é' takes two bytes in UTF-8 but is one tile (drawn as grass).
    let layout = parse_map("é#\n##\n");
    assert_eq!(layout.size_x, 3);
    assert_eq!(layout.size_y, 2);
    assert_eq!(
        layout.tiles,
        vec![
            tile(0, 1, TileKind::Grass),
            tile(1, 1, TileKind::Stone),
            tile(0, 0, TileKind::Stone),
            tile(1, 0, TileKind::Stone),
        ]
    );
}

#[test]
fn unknown_characters_are_grass() {
    let layout = parse_map("x?Z");
    assert!(layout.tiles.iter().all(|t| t.kind == TileKind::Grass));
}

#[test]
fn texture_indices_and_solidity() {
    assert_eq!(TileKind::Grass.texture_index(), 0);
    assert_eq!(TileKind::Dirt.texture_index(), 1);
    assert_eq!(TileKind::Water.texture_index(), 2);
    assert_eq!(TileKind::Stone.texture_index(), 3);
    assert!(TileKind::Stone.is_solid());
    assert!(!TileKind::Water.is_solid());
    assert!(!TileKind::Grass.is_solid());
    assert_eq!(TileKind::from_char('#'), TileKind::Stone);
    assert_eq!(TileKind::from_char('.'), TileKind::Grass);
    assert_eq!(TileKind::from_char(','), TileKind::Dirt);
    assert_eq!(TileKind::from_char('~'), TileKind::Water);
}

#[test]
fn every_tile_lies_in_a_row_of_the_grid() {
    let layout = parse_map("#.#\n\n~~\n,\n");
    assert_eq!(layout.size_y, 3);
    assert!(layout.tiles.iter().all(|t| t.y < layout.size_y));
    assert_eq!(layout.tiles.iter().filter(|t| t.kind.is_solid()).count(), 2);
}

/// The rows and tiles agree with `str::lines` and `str::chars` on texts with
/// every kind of line ending.
#[test]
fn rows_agree_with_std_lines() {
    let texts = [
        "",
        "\n",
        "\r\n",
        "#",
        "#\n",
        "#\r\n\r\n.,~#\n\n",
        "a\rb\r\nc\r",
        "\n\n..\n~~~~\n#",
        "ü~\nñ\r\n",
        "\r\r\n\r",
    ];
    for text in texts {
        let rows: Vec<&str> = text.lines().filter(|l| !l.is_empty()).collect();
        let layout = parse_map(text);
        assert_eq!(layout.size_y as usize, rows.len(), "{text:?}");
        let width = if rows.is_empty() { 0 } else { rows[0].len() };
        assert_eq!(layout.size_x as usize, width, "{text:?}");
        let mut expected = Vec::new();
        for (r, row) in rows.iter().enumerate() {
            let y = (rows.len() - 1 - r) as u32;
            for (x, c) in row.chars().enumerate() {
                expected.push(tile(x as u32, y, TileKind::from_char(c)));
            }
        }
        assert_eq!(layout.tiles, expected, "{text:?}");
    }
}
