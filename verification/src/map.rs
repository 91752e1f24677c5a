//! The text map format: one line per row of tiles, one character per tile.
//!
//! Lines are read as `str::lines` reads them (a `\n` ends a line, a `\r`
//! right before it is dropped), empty lines are skipped, and the first line
//! read is the top row of the map.
use vstd::prelude::*;
use vstd::utf8::{encode_scalar, encode_utf8};

verus! {

/// What a map character stands for.
#[derive(Clone, Copy, PartialEq, Eq, Structural, Debug)]
pub enum TileKind {
    Grass,
    Dirt,
    Water,
    Stone,
}

/// The tile that a character of the map text stands for: `.` grass, `,` dirt,
/// `~` water, `#` stone; any other character is drawn as grass.
pub open spec fn tile_kind_of(c: char) -> TileKind {
    if c == ',' {
        TileKind::Dirt
    } else if c == '~' {
        TileKind::Water
    } else if c == '#' {
        TileKind::Stone
    } else {
        TileKind::Grass
    }
}

impl TileKind {
    pub open spec fn spec_texture_index(self) -> u32 {
        match self {
            TileKind::Grass => 0,
            TileKind::Dirt => 1,
            TileKind::Water => 2,
            TileKind::Stone => 3,
        }
    }

    /// The kind of tile that the map character `c` stands for.
    pub fn from_char(c: char) -> (kind: TileKind)
        ensures
            kind == tile_kind_of(c),
    {
        if c == ',' {
            TileKind::Dirt
        } else if c == '~' {
            TileKind::Water
        } else if c == '#' {
            TileKind::Stone
        } else {
            TileKind::Grass
        }
    }

    /// Index of the tile's picture in the tile sheet.
    pub fn texture_index(self) -> (index: u32)
        ensures
            index == self.spec_texture_index(),
    {
        match self {
            TileKind::Grass => 0,
            TileKind::Dirt => 1,
            TileKind::Water => 2,
            TileKind::Stone => 3,
        }
    }

    /// Whether the tile blocks movement (it gets a static collider).
    pub fn is_solid(self) -> (solid: bool)
        ensures
            solid == (self == TileKind::Stone),
    {
        match self {
            TileKind::Stone => true,
            _ => false,
        }
    }
}

/// One tile of the map, at column `x` and row `y` of the tile grid
/// (row 0 is the bottom row).
#[derive(Clone, Copy, PartialEq, Eq, Structural, Debug)]
pub struct MapTile {
    pub x: u32,
    pub y: u32,
    pub kind: TileKind,
}

/// A parsed map: its grid size and its tiles, row after row from the top.
pub struct MapLayout {
    /// Width of the grid: the length in bytes of the first row's text.
    pub size_x: u32,
    /// Height of the grid: the number of non-empty lines.
    pub size_y: u32,
    pub tiles: Vec<MapTile>,
}

/// Position of the first `\n` in `s` at or after `i`, or `s.len()` when there is none.
pub open spec fn line_break_at(s: Seq<char>, i: int) -> int
    decreases s.len() - i,
{
    if i < 0 || i >= s.len() {
        s.len() as int
    } else if s[i] == '\n' {
        i
    } else {
        line_break_at(s, i + 1)
    }
}

/// A line without the `\r` of a `\r\n` ending.
pub open spec fn strip_carriage_return(line: Seq<char>) -> Seq<char> {
    if line.len() > 0 && line.last() == '\r' {
        line.drop_last()
    } else {
        line
    }
}

pub proof fn lemma_line_break_bounds(s: Seq<char>, i: int)
    requires
        0 <= i <= s.len(),
    ensures
        i <= line_break_at(s, i) <= s.len(),
        line_break_at(s, i) < s.len() ==> s[line_break_at(s, i)] == '\n',
    decreases s.len() - i,
{
    if i < s.len() && s[i] != '\n' {
        lemma_line_break_bounds(s, i + 1);
    }
}

/// The lines of `s`, as `str::lines` yields them: a line ends at `\n`, which
/// is dropped together with a `\r` right before it; the last line needs no
/// `\n`, and a final `\n` starts no further line.
pub open spec fn text_lines(s: Seq<char>) -> Seq<Seq<char>>
    decreases s.len(),
{
    if s.len() == 0 {
        Seq::empty()
    } else {
        let k = line_break_at(s, 0);
        if k >= s.len() {
            seq![s]
        } else {
            proof {
                lemma_line_break_bounds(s, 0);
            }
            seq![strip_carriage_return(s.take(k))] + text_lines(s.skip(k + 1))
        }
    }
}

pub open spec fn is_nonempty_line(line: Seq<char>) -> bool {
    line.len() > 0
}

/// The non-empty lines among `lines`, in order.
pub open spec fn nonempty_lines(lines: Seq<Seq<char>>) -> Seq<Seq<char>> {
    lines.filter(|line: Seq<char>| is_nonempty_line(line))
}

/// The rows of the map: the non-empty lines of the text, top row first.
pub open spec fn map_rows(s: Seq<char>) -> Seq<Seq<char>> {
    nonempty_lines(text_lines(s))
}

/// The tiles of one row, one per character, at grid row `y`.
pub open spec fn row_tiles(row: Seq<char>, y: u32) -> Seq<MapTile> {
    Seq::new(row.len(), |i: int| MapTile { x: i as u32, y, kind: tile_kind_of(row[i]) })
}

/// The tiles of each row; row `r` from the top lies at grid row `height - 1 - r`.
pub open spec fn tiles_by_row(rows: Seq<Seq<char>>, height: u32) -> Seq<Seq<MapTile>> {
    Seq::new(rows.len(), |r: int| row_tiles(rows[r], (height - 1 - r) as u32))
}

pub open spec fn spec_size_y(s: Seq<char>) -> u32 {
    map_rows(s).len() as u32
}

pub open spec fn spec_size_x(s: Seq<char>) -> u32 {
    if map_rows(s).len() > 0 {
        encode_utf8(map_rows(s)[0]).len() as u32
    } else {
        0
    }
}

/// All tiles of the map described by `s`, row after row from the top.
pub open spec fn spec_tiles(s: Seq<char>) -> Seq<MapTile> {
    tiles_by_row(map_rows(s), spec_size_y(s)).flatten()
}

fn collect_chars(text: &str) -> (v: Vec<char>)
    ensures
        v@ == text@,
{
    let mut v: Vec<char> = Vec::new();
    for c in it: text.chars()
        invariant
            v@ == it.seq().take(it.index() as int),
    {
        v.push(c);
    }
    v
}

proof fn lemma_line_break_shift(s: Seq<char>, pos: int, i: int)
    requires
        0 <= pos <= s.len(),
        0 <= i <= s.len() - pos,
    ensures
        line_break_at(s.skip(pos), i) + pos == line_break_at(s, pos + i),
    decreases s.len() - pos - i,
{
    if i < s.len() - pos && s[pos + i] != '\n' {
        lemma_line_break_shift(s, pos, i + 1);
    }
}

proof fn lemma_filter_push(done: Seq<Seq<char>>, line: Seq<char>)
    ensures
        nonempty_lines(done.push(line)) == (if is_nonempty_line(line) {
            nonempty_lines(done).push(line)
        } else {
            nonempty_lines(done)
        }),
{
    reveal_with_fuel(Seq::filter, 1);
    assert(done.push(line).drop_last() =~= done);
}

/// Splits `s` into its non-empty lines, each given by its start and end position.
fn split_rows(s: &Vec<char>) -> (rows: Vec<(usize, usize)>)
    ensures
        rows@.len() == map_rows(s@).len(),
        rows@.len() <= s@.len(),
        forall|r: int| 0 <= r < rows@.len() ==> #[trigger] rows@[r].0 <= rows@[r].1 <= s@.len(),
        forall|r: int|
            0 <= r < rows@.len() ==> s@.subrange(rows@[r].0 as int, rows@[r].1 as int)
                == #[trigger] map_rows(s@)[r],
{
    let n = s.len();
    let mut rows: Vec<(usize, usize)> = Vec::new();
    let mut pos: usize = 0;
    let ghost mut done: Seq<Seq<char>> = Seq::empty();
    assert(s@.skip(0) =~= s@);
    while pos < n
        invariant
            n == s@.len(),
            0 <= pos <= n,
            text_lines(s@) == done + text_lines(s@.skip(pos as int)),
            rows@.len() == nonempty_lines(done).len(),
            rows@.len() <= pos,
            forall|r: int| 0 <= r < rows@.len() ==> #[trigger] rows@[r].0 <= rows@[r].1 <= n,
            forall|r: int|
                0 <= r < rows@.len() ==> s@.subrange(rows@[r].0 as int, rows@[r].1 as int)
                    == #[trigger] nonempty_lines(done)[r],
        decreases n - pos,
    {
        let mut j = pos;
        while j < n && s[j] != '\n'
            invariant
                n == s@.len(),
                pos <= j <= n,
                line_break_at(s@, j as int) == line_break_at(s@, pos as int),
            decreases n - j,
        {
            j = j + 1;
        }
        let ghost t = s@.skip(pos as int);
        proof {
            lemma_line_break_shift(s@, pos as int, 0);
            assert(line_break_at(t, 0) == j - pos);
        }
        let ghost old_done = done;
        let ghost old_filtered = nonempty_lines(done);
        let ghost old_len = rows@.len();
        let ghost line: Seq<char> = if j == n {
            t
        } else {
            strip_carriage_return(t.take(j - pos))
        };
        if j == n {
            proof {
                assert(text_lines(t) == seq![t]);
                assert(s@.subrange(pos as int, n as int) =~= t);
                assert(s@.skip(n as int) =~= Seq::<char>::empty());
                done = done.push(line);
                assert(old_done + seq![line] =~= done);
                assert(done + Seq::<Seq<char>>::empty() =~= done);
            }
            rows.push((pos, n));
            pos = n;
        } else {
            let mut end = j;
            if j > pos && s[j - 1] == '\r' {
                end = j - 1;
            }
            proof {
                assert(t.take(j - pos) =~= s@.subrange(pos as int, j as int));
                assert(s@.subrange(pos as int, end as int) =~= line);
                assert(t.skip(j - pos + 1) =~= s@.skip(j + 1));
                assert(text_lines(t) == seq![line] + text_lines(s@.skip(j + 1)));
                done = done.push(line);
                assert(old_done + (seq![line] + text_lines(s@.skip(j + 1))) =~= done + text_lines(
                    s@.skip(j + 1),
                ));
            }
            if end > pos {
                rows.push((pos, end));
            }
            pos = j + 1;
        }
        proof {
            lemma_filter_push(old_done, line);
            assert forall|r: int| 0 <= r < rows@.len() implies s@.subrange(
                rows@[r].0 as int,
                rows@[r].1 as int,
            ) == #[trigger] nonempty_lines(done)[r] by {
                if r < old_len {
                    assert(nonempty_lines(done)[r] == old_filtered[r]);
                } else {
                    assert(nonempty_lines(done)[r] == line);
                }
            }
        }
    }
    proof {
        assert(s@.skip(n as int) =~= Seq::<char>::empty());
        assert(done + Seq::<Seq<char>>::empty() =~= done);
        assert(map_rows(s@) == nonempty_lines(done));
    }
    rows
}


/// The map characters: `#` alone is stone (solid), `,` dirt, `~` water, and
/// every other character grass; their pictures are tiles 0 to 3 of the sheet.
pub proof fn lemma_tile_kinds(c: char)
    ensures
        (tile_kind_of(c) == TileKind::Stone) <==> c == '#',
        (tile_kind_of(c) == TileKind::Dirt) <==> c == ',',
        (tile_kind_of(c) == TileKind::Water) <==> c == '~',
        (tile_kind_of(c) == TileKind::Grass) <==> (c != '#' && c != ',' && c != '~'),
        tile_kind_of(c).spec_texture_index() == (if c == ',' {
            1u32
        } else if c == '~' {
            2u32
        } else if c == '#' {
            3u32
        } else {
            0u32
        }),
{
}

proof fn lemma_encode_utf8_push(a: Seq<char>, c: char)
    ensures
        encode_utf8(a.push(c)) == encode_utf8(a) + encode_scalar(c as u32),
    decreases a.len(),
{
    if a.len() == 0 {
        assert(a.push(c).drop_first() =~= Seq::<char>::empty());
        assert(encode_utf8(Seq::<char>::empty()) == Seq::<u8>::empty());
        assert(encode_scalar(c as u32) + Seq::<u8>::empty() =~= encode_scalar(c as u32));
        assert(encode_utf8(a) =~= Seq::<u8>::empty());
        assert(Seq::<u8>::empty() + encode_scalar(c as u32) =~= encode_scalar(c as u32));
    } else {
        assert(a.push(c).drop_first() =~= a.drop_first().push(c));
        lemma_encode_utf8_push(a.drop_first(), c);
        assert(encode_scalar(a[0] as u32) + (encode_utf8(a.drop_first()) + encode_scalar(
            c as u32,
        )) =~= (encode_scalar(a[0] as u32) + encode_utf8(a.drop_first())) + encode_scalar(
            c as u32,
        ));
    }
}

/// Number of bytes of the UTF-8 encoding of `c`.
fn utf8_width(c: char) -> (w: u64)
    ensures
        w == encode_scalar(c as u32).len(),
        1 <= w <= 4,
{
    let v = c as u32;
    if v <= 0x7F {
        1
    } else if v <= 0x7FF {
        2
    } else if v <= 0xFFFF {
        3
    } else {
        4
    }
}

/// Length in bytes of the UTF-8 text `s[start..end]`.
fn utf8_len(s: &Vec<char>, start: usize, end: usize) -> (len: u64)
    requires
        start <= end <= s@.len(),
        s@.len() <= u32::MAX,
    ensures
        len == encode_utf8(s@.subrange(start as int, end as int)).len(),
{
    let mut len: u64 = 0;
    let mut i = start;
    assert(s@.subrange(start as int, start as int) =~= Seq::<char>::empty());
    while i < end
        invariant
            start <= i <= end <= s@.len() <= u32::MAX,
            len == encode_utf8(s@.subrange(start as int, i as int)).len(),
            len <= 4 * (i - start),
        decreases end - i,
    {
        let w = utf8_width(s[i]);
        proof {
            assert(s@.subrange(start as int, i + 1) =~= s@.subrange(start as int, i as int).push(
                s@[i as int],
            ));
            lemma_encode_utf8_push(s@.subrange(start as int, i as int), s@[i as int]);
        }
        len = len + w;
        i = i + 1;
    }
    len
}

/// Reads a map from its text: each non-empty line is a row (the first line
/// is the top row), each character a tile.
pub fn parse_map(text: &str) -> (layout: MapLayout)
    requires
        text@.len() <= u32::MAX,
    ensures
        layout.size_x == spec_size_x(text@),
        layout.size_y == spec_size_y(text@),
        layout.tiles@ == spec_tiles(text@),
        forall|i: int| 0 <= i < layout.tiles@.len() ==> #[trigger] layout.tiles@[i].y < layout.size_y,
{
    let chars = collect_chars(text);
    let rows = split_rows(&chars);
    let ghost map = map_rows(chars@);
    let size_y = rows.len() as u32;
    let size_x = if rows.len() > 0 {
        let (start, end) = rows[0];
        #[verifier::truncate]
        (utf8_len(&chars, start, end) as u32)
    } else {
        0
    };
    let ghost by_row = tiles_by_row(map, size_y);
    let mut tiles: Vec<MapTile> = Vec::new();
    let mut r: usize = 0;
    assert(by_row.take(0) =~= Seq::<Seq<MapTile>>::empty());
    while r < rows.len()
        invariant
            rows@.len() == map.len() == by_row.len(),
            rows@.len() <= chars@.len() <= u32::MAX,
            size_y == rows@.len(),
            0 <= r <= rows@.len(),
            by_row == tiles_by_row(map, size_y),
            forall|k: int| 0 <= k < rows@.len() ==> #[trigger] rows@[k].0 <= rows@[k].1 <= chars@.len(),
            forall|k: int|
                0 <= k < rows@.len() ==> chars@.subrange(rows@[k].0 as int, rows@[k].1 as int)
                    == #[trigger] map[k],
            tiles@ == by_row.take(r as int).flatten(),
            forall|k: int| 0 <= k < tiles@.len() ==> #[trigger] tiles@[k].y < size_y,
        decreases rows@.len() - r,
    {
        let (start, end) = rows[r];
        let y = size_y - 1 - r as u32;
        let ghost row = map[r as int];
        let ghost before = tiles@;
        assert(chars@.subrange(start as int, end as int) == map[r as int]);
        let mut i = start;
        while i < end
            invariant
                start <= i <= end <= chars@.len() <= u32::MAX,
                row == chars@.subrange(start as int, end as int),
                tiles@ == before + row_tiles(row, y).take(i - start),
                y < size_y,
                forall|k: int| 0 <= k < tiles@.len() ==> #[trigger] tiles@[k].y < size_y,
                forall|k: int|
                    0 <= k < rows@.len() ==> #[trigger] rows@[k].0 <= rows@[k].1 <= chars@.len(),
            decreases end - i,
        {
            let tile = MapTile { x: (i - start) as u32, y, kind: TileKind::from_char(chars[i]) };
            proof {
                assert(row_tiles(row, y).take(i - start + 1) =~= row_tiles(row, y).take(
                    i - start,
                ).push(tile));
            }
            tiles.push(tile);
            i = i + 1;
        }
        proof {
            assert(row_tiles(row, y).take(end - start) =~= row_tiles(row, y));
            assert(by_row[r as int] == row_tiles(row, y));
            assert(by_row.take(r + 1) =~= by_row.take(r as int).push(row_tiles(row, y)));
            by_row.take(r as int).lemma_flatten_push(row_tiles(row, y));
        }
        r = r + 1;
    }
    proof {
        assert(by_row.take(rows@.len() as int) =~= by_row);
        if rows@.len() > 0 {
            assert(map[0] == chars@.subrange(rows@[0].0 as int, rows@[0].1 as int));
        }
    }
    MapLayout { size_x, size_y, tiles }
}

} // verus!
