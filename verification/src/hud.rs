//! The event radar: the frame around the drawn radar, with the mode and the
//! radar's caption written across it.
use vstd::prelude::*;
use crate::domain::{CockpitMode, mode_label};
use crate::text::{chars_of, concat3, has_sub, matches_at, string_of, string_views};

verus! {

/// The lines of the drawn radar.
#[derive(Debug, Clone)]
pub struct HudFrame {
    pub lines: Vec<String>,
}

/// The smallest radar: 24 columns by 11 rows.
pub open spec fn hud_size(width: int, height: int) -> (int, int) {
    (if width > 24 {
        width
    } else {
        24
    }, if height > 11 {
        height
    } else {
        11
    })
}

/// The radar's size for a pane of the given size.
pub fn hud_dimensions(width: usize, height: usize) -> (r: (usize, usize))
    ensures
        (r.0 as int, r.1 as int) == hud_size(width as int, height as int),
{
    (if width > 24 {
        width
    } else {
        24
    }, if height > 11 {
        height
    } else {
        11
    })
}

/// The glyph at the radar's core for each mode.
pub open spec fn core_glyph_spec(mode: CockpitMode) -> char {
    match mode {
        CockpitMode::ApprovalNeeded => '◆',
        CockpitMode::Disconnected | CockpitMode::Error => '×',
        CockpitMode::Speaking => '◍',
        _ => '◉',
    }
}

/// The glyph at the radar's core.
pub fn core_glyph(mode: CockpitMode) -> (r: char)
    ensures
        r == core_glyph_spec(mode),
{
    match mode {
        CockpitMode::ApprovalNeeded => '◆',
        CockpitMode::Disconnected | CockpitMode::Error => '×',
        CockpitMode::Speaking => '◍',
        _ => '◉',
    }
}

/// `row` with `text` written over its middle, cut at the row's end.
pub open spec fn centered(row: Seq<char>, text: Seq<char>) -> Seq<char> {
    let width = row.len() as int;
    let start = (if width > text.len() {
        width - text.len()
    } else {
        0
    }) / 2;
    Seq::new(
        row.len(),
        |k: int|
            if start <= k < start + text.len() {
                text[k - start]
            } else {
                row[k]
            },
    )
}

/// The views of the grid's rows.
pub open spec fn grid_view(g: Seq<Vec<char>>) -> Seq<Seq<char>> {
    g.map_values(|r: Vec<char>| r@)
}

/// Writes `text` centred on row `row` of the grid; a row that is missing
/// or empty is left alone.
pub fn write_center(grid: &mut Vec<Vec<char>>, row: usize, text: &str)
    ensures
        final(grid)@.len() == old(grid)@.len(),
        row >= old(grid)@.len() || old(grid)@[row as int].len() == 0 ==> grid_view(final(grid)@)
            == grid_view(old(grid)@),
        row < old(grid)@.len() && old(grid)@[row as int].len() > 0 ==> grid_view(final(grid)@)
            == grid_view(old(grid)@).update(row as int, centered(old(grid)@[row as int]@, text@)),
{
    if row >= grid.len() || grid[row].len() == 0 {
        return ;
    }
    let tc = chars_of(text);
    let mut line = grid[row].clone();
    let width = line.len();
    let start = (if width > tc.len() {
        width - tc.len()
    } else {
        0
    }) / 2;
    let ghost orig = line@;
    let mut offset: usize = 0;
    while offset < tc.len()
        invariant
            offset <= tc.len(),
            width == line@.len(),
            orig.len() == width,
            start <= width,
            line@ =~= Seq::new(
                width as nat,
                |k: int|
                    if start <= k < start + offset {
                        tc@[k - start]
                    } else {
                        orig[k]
                    },
            ),
        decreases tc.len() - offset,
    {
        if offset < width - start {
            line.set(start + offset, tc[offset]);
        }
        offset += 1;
    }
    assert(line@ =~= centered(orig, text@));
    grid.set(row, line);
    assert(grid_view(grid@) =~= grid_view(old(grid)@).update(row as int, centered(orig, text@)));
}

/// The radar's frame: the mode's label across the middle row and the
/// caption on the second row from the bottom.
pub open spec fn hud_lines_spec(grid: Seq<Seq<char>>, mode: CockpitMode) -> Seq<Seq<char>> {
    let h = grid.len() as int;
    let mid = h / 2;
    let low = if h >= 2 {
        h - 2
    } else {
        0
    };
    let g1 = if mid < h && grid[mid].len() > 0 {
        grid.update(mid, centered(grid[mid], " "@ + mode_label(mode) + " "@))
    } else {
        grid
    };
    if low < h && g1[low].len() > 0 {
        g1.update(low, centered(g1[low], "ACP/GATEWAY EVENT RADAR"@))
    } else {
        g1
    }
}

proof fn lemma_centered_shows(row: Seq<char>, text: Seq<char>)
    requires
        text.len() <= row.len(),
    ensures
        centered(row, text).len() == row.len(),
        matches_at(centered(row, text), text, (row.len() - text.len()) / 2),
{
    let start = (row.len() - text.len()) / 2;
    assert(start + text.len() <= row.len());
    assert forall|j: int| 0 <= j < text.len() implies #[trigger] centered(row, text)[start + j]
        == text[j] by {}
}

proof fn lemma_mode_label_short(mode: CockpitMode)
    ensures
        mode_label(mode).len() <= 12,
{
    reveal_strlit("IDLE");
    reveal_strlit("LISTENING");
    reveal_strlit("WAKE");
    reveal_strlit("PROCESSING");
    reveal_strlit("TOOL ACTIVE");
    reveal_strlit("APPROVAL");
    reveal_strlit("SPEAKING");
    reveal_strlit("DISCONNECTED");
    reveal_strlit("ERROR");
}

/// On a radar of at least 11 rows, all as wide as the first and that at least
/// 24 columns, the frame keeps the radar's size, shows the mode's label with a
/// space on each side across the middle row, and the caption
/// `ACP/GATEWAY EVENT RADAR` on the second row from the bottom.
pub proof fn law_hud_frame_shows_mode_and_caption(grid: Seq<Seq<char>>, mode: CockpitMode)
    requires
        grid.len() >= 11,
        grid[0].len() >= 24,
        forall|i: int| 0 <= i < grid.len() ==> #[trigger] grid[i].len() == grid[0].len(),
    ensures
        hud_lines_spec(grid, mode).len() == grid.len(),
        forall|i: int|
            0 <= i < grid.len() ==> #[trigger] hud_lines_spec(grid, mode)[i].len() == grid[0].len(),
        has_sub(hud_lines_spec(grid, mode)[grid.len() as int / 2], " "@ + mode_label(mode) + " "@),
        has_sub(hud_lines_spec(grid, mode)[grid.len() - 2], "ACP/GATEWAY EVENT RADAR"@),
{
    reveal_strlit(" ");
    reveal_strlit("ACP/GATEWAY EVENT RADAR");
    lemma_mode_label_short(mode);
    let h = grid.len() as int;
    let mid = h / 2;
    let low = h - 2;
    let label = " "@ + mode_label(mode) + " "@;
    let caption = "ACP/GATEWAY EVENT RADAR"@;
    assert(caption.len() == 23);
    assert(grid[mid].len() == grid[0].len());
    assert(grid[low].len() == grid[0].len());
    lemma_centered_shows(grid[mid], label);
    let g1 = grid.update(mid, centered(grid[mid], label));
    assert(g1[low] == grid[low]);
    lemma_centered_shows(g1[low], caption);
    let lines = hud_lines_spec(grid, mode);
    assert(lines == g1.update(low, centered(g1[low], caption)));
    assert(lines[mid] == centered(grid[mid], label));
    assert(matches_at(lines[mid], label, (grid[mid].len() - label.len()) / 2));
    assert(matches_at(lines[low], caption, (g1[low].len() - caption.len()) / 2));
    assert forall|i: int| 0 <= i < h implies #[trigger] lines[i].len() == grid[0].len() by {
        assert(grid[i].len() == grid[0].len());
    }
}

/// The radar's frame from its drawn grid of glyphs.
pub fn hud_frame(grid: Vec<Vec<char>>, mode: CockpitMode) -> (r: HudFrame)
    ensures
        string_views(r.lines@) == hud_lines_spec(grid_view(grid@), mode),
{
    let mut grid = grid;
    let height = grid.len();
    let label = concat3(" ", mode.label(), " ");
    write_center(&mut grid, height / 2, label.as_str());
    let low = if height >= 2 {
        height - 2
    } else {
        0
    };
    write_center(&mut grid, low, "ACP/GATEWAY EVENT RADAR");
    let mut lines: Vec<String> = Vec::new();
    let ghost g = grid@;
    let mut i: usize = 0;
    while i < grid.len()
        invariant
            i <= grid.len(),
            grid@ == g,
            lines@.len() == i,
            string_views(lines@) == grid_view(grid@).take(i as int),
        decreases grid.len() - i,
    {
        let ghost before = lines@;
        let row = string_of(&grid[i]);
        lines.push(row);
        proof {
            assert(lines@ == before.push(row));
            assert(lines@[i as int] == row);
            assert(row@ == grid@[i as int]@);
            assert(string_views(lines@)[i as int] == grid_view(grid@)[i as int]);
            assert(string_views(lines@) =~= grid_view(grid@).take(i + 1));
        }
        i += 1;
    }
    assert(grid_view(grid@).take(grid.len() as int) =~= grid_view(grid@));
    HudFrame { lines }
}

} // verus!
