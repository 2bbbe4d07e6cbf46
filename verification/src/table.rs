//! The table in which a queue is shown.

use crate::duration::can_show;
use crate::error::Error;
use crate::text::{decimal, decimal_text};
use crate::track::Track;
use std::collections::VecDeque;
use unicode_prettytable::TableBuilder;
use vstd::prelude::*;
use vstd::slice::slice_subrange;
use vstd::utf8::{encode_utf8, valid_utf8};

verus! {

/// The characters of a row's cells.
pub open spec fn row_cells(row: Seq<String>) -> Seq<Seq<char>> {
    Seq::new(row.len(), |c: int| row[c]@)
}

/// The characters of a table's cells, row by row.
pub open spec fn cells(rows: Seq<Vec<String>>) -> Seq<Seq<Seq<char>>> {
    Seq::new(rows.len(), |r: int| row_cells(rows[r]@))
}

/// The width of a column over the first so many rows: that of its widest cell.
pub open spec fn column_width(rows: Seq<Seq<Seq<char>>>, column: int, count: nat) -> nat
    decreases count,
{
    if count == 0 {
        0
    } else {
        let above = column_width(rows, column, (count - 1) as nat);
        let row = rows[count - 1];
        if column < row.len() && row[column].len() > above {
            row[column].len()
        } else {
            above
        }
    }
}

/// The widths of a table's columns. The first row says how many there are.
pub open spec fn widths(rows: Seq<Seq<Seq<char>>>) -> Seq<nat> {
    Seq::new(rows[0].len(), |c: int| column_width(rows, c, rows.len()))
}

/// Where a column starts in its line, in bytes from the first bar on. A bar
/// takes three bytes, and a column one byte for each character of its width.
pub open spec fn column_start(widths: Seq<nat>, column: int) -> int
    decreases column,
{
    if column <= 0 {
        0
    } else {
        column_start(widths, column - 1) + widths[column - 1] + 3
    }
}

/// The byte at a place of a line once the first so many cells are in it. A
/// cell is laid from its column's start on, also over the end of its column:
/// a later cell covers an earlier one, and what no cell reaches stays blank.
pub open spec fn laid_byte(row: Seq<Seq<char>>, widths: Seq<nat>, count: nat, place: int) -> u8
    decreases count,
{
    if count == 0 {
        0x20
    } else {
        let start = column_start(widths, count - 1);
        let bytes = encode_utf8(row[count - 1]);
        if start <= place < start + bytes.len() {
            bytes[place - start]
        } else {
            laid_byte(row, widths, (count - 1) as nat, place)
        }
    }
}

/// The bytes that stand in a column of a line.
pub open spec fn laid_column(row: Seq<Seq<char>>, widths: Seq<nat>, column: int) -> Seq<u8> {
    Seq::new(
        widths[column],
        |k: int| laid_byte(row, widths, row.len(), column_start(widths, column) + k),
    )
}

/// The characters of a table as it is counted before it is drawn: each row has
/// a line of its own and one above it, one line closes the table, and all but
/// the last line end in a line break.
pub open spec fn counted_size(rows: Seq<Seq<Seq<char>>>) -> int {
    (column_start(widths(rows), rows[0].len() as int) - 2 * rows[0].len() + 1) * (2 * rows.len() + 1) + 2
        * rows.len()
}

/// Whether a table can be drawn: it has a row, no row has more cells than the
/// first, which has one at least, what is reserved for it can be reserved, and
/// what stands in each column of each line is whole characters.
pub open spec fn drawable(rows: Seq<Seq<Seq<char>>>) -> bool {
    &&& rows.len() > 0
    &&& rows[0].len() > 0
    &&& forall|r: int| 0 <= r < rows.len() ==> (#[trigger] rows[r]).len() <= rows[0].len()
    &&& 4 * counted_size(rows) <= isize::MAX
    &&& forall|r: int, c: int|
        0 <= r < rows.len() && 0 <= c < rows[r].len() ==> valid_utf8(
            #[trigger] laid_column(rows[r], widths(rows), c),
        )
}

/// Calls `std::str::from_utf8`. Claimed: it succeeds on UTF-8 and on nothing
/// else.
#[verifier::external_body]
fn is_utf8(bytes: &[u8]) -> (valid: bool)
    ensures
        valid == valid_utf8(bytes@),
{
    std::str::from_utf8(bytes).is_ok()
}

/// The widths of a table's columns.
fn column_widths(rows: &Vec<Vec<String>>) -> (found: Vec<usize>)
    requires
        rows.len() > 0,
    ensures
        found@.len() == widths(cells(rows@)).len(),
        forall|c: int| 0 <= c < found@.len() ==> found@[c] == #[trigger] widths(cells(rows@))[c],
{
    let ghost all = cells(rows@);
    let columns: usize = rows[0].len();
    let mut found: Vec<usize> = Vec::new();
    let mut c: usize = 0;
    while c < columns
        invariant
            rows.len() > 0,
            all == cells(rows@),
            columns == all[0].len(),
            c <= columns,
            found@.len() == c,
            forall|i: int| 0 <= i < c ==> found@[i] == #[trigger] widths(all)[i],
        decreases columns - c,
    {
        let mut width: usize = 0;
        let mut r: usize = 0;
        while r < rows.len()
            invariant
                all == cells(rows@),
                r <= rows.len(),
                width == column_width(all, c as int, r as nat),
            decreases rows.len() - r,
        {
            assert(all[r as int].len() == rows@[r as int]@.len());
            if c < rows[r].len() {
                let n: usize = rows[r][c].as_str().unicode_len();
                assert(all[r as int][c as int].len() == n);
                if n > width {
                    width = n;
                }
            }
            r = r + 1;
        }
        found.push(width);
        c = c + 1;
    }
    found
}

/// The widths as numbers of any size.
spec fn as_nats(widths: Seq<usize>) -> Seq<nat> {
    Seq::new(widths.len(), |c: int| widths[c] as nat)
}

/// A later column starts after an earlier one has ended.
proof fn columns_in_order(widths: Seq<nat>, a: int, b: int)
    requires
        0 <= a < b <= widths.len(),
    ensures
        column_start(widths, a) + widths[a] + 3 <= column_start(widths, b),
    decreases b,
{
    if a < b - 1 {
        columns_in_order(widths, a, b - 1);
    }
}

/// Each column takes room for a bar.
proof fn bars_have_room(widths: Seq<nat>, column: int)
    requires
        0 <= column <= widths.len(),
    ensures
        3 * column <= column_start(widths, column),
    decreases column,
{
    if column > 0 {
        bars_have_room(widths, column - 1);
    }
}

/// A table is counted larger than its longest line and than its rows.
proof fn size_is_large(rows: Seq<Seq<Seq<char>>>)
    requires
        rows.len() > 0,
    ensures
        counted_size(rows) >= column_start(widths(rows), rows[0].len() as int),
        counted_size(rows) >= 2 * rows.len(),
{
    let w = widths(rows);
    let count = rows.len();
    bars_have_room(w, w.len() as int);
    let line = column_start(w, w.len() as int) - 2 * w.len() + 1;
    assert(line * (2 * count + 1) >= 3 * line) by (nonlinear_arith)
        requires
            line >= 1,
            count >= 1,
    ;
}

/// The bytes of a line, all of them within its columns and bars.
fn lay_row(row: &Vec<String>, widths: &Vec<usize>, total: usize) -> (line: Vec<u8>)
    requires
        row.len() <= widths.len(),
        total == column_start(as_nats(widths@), widths@.len() as int),
    ensures
        line@.len() == total,
        forall|p: int|
            0 <= p < total ==> line@[p] == #[trigger] laid_byte(
                row_cells(row@),
                as_nats(widths@),
                row@.len(),
                p,
            ),
{
    let ghost cells = row_cells(row@);
    let ghost w = as_nats(widths@);
    let mut line: Vec<u8> = Vec::new();
    while line.len() < total
        invariant
            line@.len() <= total,
            forall|p: int| 0 <= p < line@.len() ==> line@[p] == 0x20,
        decreases total - line.len(),
    {
        line.push(0x20);
    }
    let mut start: usize = 0;
    let mut c: usize = 0;
    while c < row.len()
        invariant
            cells == row_cells(row@),
            w == as_nats(widths@),
            row.len() <= widths.len(),
            total == column_start(w, w.len() as int),
            c <= row.len(),
            start == column_start(w, c as int),
            line@.len() == total,
            forall|p: int|
                0 <= p < total ==> line@[p] == #[trigger] laid_byte(cells, w, c as nat, p),
        decreases row.len() - c,
    {
        proof {
            columns_in_order(w, c as int, w.len() as int);
            assert(w[c as int] == widths@[c as int]);
        }
        let bytes: &[u8] = row[c].as_str().as_bytes();
        let ghost before = line@;
        let mut k: usize = 0;
        while k < bytes.len() && k < total - start
            invariant
                start <= total,
                k <= bytes.len(),
                k <= total - start,
                line@.len() == total == before.len(),
                forall|p: int|
                    0 <= p < total ==> line@[p] == (if start <= p < start + k {
                        bytes@[p - start]
                    } else {
                        before[p]
                    }),
            decreases bytes.len() - k,
        {
            line.set(start + k, bytes[k]);
            k = k + 1;
        }
        assert(bytes@ == encode_utf8(cells[c as int]));
        start = start + widths[c] + 3;
        c = c + 1;
        assert forall|p: int| 0 <= p < total implies line@[p] == #[trigger] laid_byte(
            cells,
            w,
            c as nat,
            p,
        ) by {
            assert(before[p] == laid_byte(cells, w, (c - 1) as nat, p));
        }
    }
    line
}

/// Whether what stands in each column of a line is whole characters.
fn row_is_whole(row: &Vec<String>, widths: &Vec<usize>, total: usize) -> (whole: bool)
    requires
        row.len() <= widths.len(),
        total == column_start(as_nats(widths@), widths@.len() as int),
    ensures
        whole == (forall|c: int|
            0 <= c < row@.len() ==> valid_utf8(
                #[trigger] laid_column(
                    row_cells(row@),
                    as_nats(widths@),
                    c,
                ),
            )),
{
    let ghost cells = row_cells(row@);
    let ghost w = as_nats(widths@);
    let line = lay_row(row, widths, total);
    let mut start: usize = 0;
    let mut c: usize = 0;
    while c < row.len()
        invariant
            cells == row_cells(row@),
            w == as_nats(widths@),
            row.len() <= widths.len(),
            total == column_start(w, w.len() as int),
            c <= row.len(),
            start == column_start(w, c as int),
            line@.len() == total,
            forall|p: int|
                0 <= p < total ==> line@[p] == #[trigger] laid_byte(cells, w, cells.len(), p),
            forall|i: int| 0 <= i < c ==> valid_utf8(#[trigger] laid_column(cells, w, i)),
        decreases row.len() - c,
    {
        proof {
            columns_in_order(w, c as int, w.len() as int);
            assert(w[c as int] == widths@[c as int]);
        }
        let part: &[u8] = slice_subrange(line.as_slice(), start, start + widths[c]);
        assert(part@ =~= laid_column(cells, w, c as int));
        if !is_utf8(part) {
            return false;
        }
        start = start + widths[c] + 3;
        c = c + 1;
    }
    true
}

/// Where the last column ends, if what is reserved for the table can be
/// reserved.
fn line_size(rows: &Vec<Vec<String>>, found: &Vec<usize>) -> (size: Option<usize>)
    requires
        rows.len() > 0,
        as_nats(found@) == widths(cells(rows@)),
    ensures
        match size {
            Some(total) => {
                &&& 4 * counted_size(cells(rows@)) <= isize::MAX
                &&& total == column_start(as_nats(found@), found@.len() as int)
            },
            None => 4 * counted_size(cells(rows@)) > isize::MAX,
        },
{
    let ghost all = cells(rows@);
    let ghost w = as_nats(found@);
    let most: usize = isize::MAX as usize;
    let count: usize = rows.len();
    let mut total: usize = 0;
    let mut c: usize = 0;
    while c < found.len()
        invariant
            rows.len() > 0,
            all == cells(rows@),
            w == as_nats(found@),
            w == widths(all),
            c <= found.len(),
            most == isize::MAX,
            total == column_start(w, c as int),
            total <= most,
        decreases found.len() - c,
    {
        proof {
            columns_in_order(w, c as int, w.len() as int);
            assert(w[c as int] == found@[c as int]);
        }
        if found[c] > most - total || most - total - found[c] < 3 {
            proof {
                size_is_large(all);
            }
            return None;
        }
        total = total + found[c] + 3;
        c = c + 1;
    }
    proof {
        size_is_large(all);
        bars_have_room(w, w.len() as int);
    }
    if count > most / 2 {
        return None;
    }
    let line: u128 = (total - 2 * found.len() + 1) as u128;
    let lines: u128 = 2 * (count as u128) + 1;
    assert(line * lines <= 0x8000_0000_0000_0000 * 0x8000_0000_0000_0000) by (nonlinear_arith)
        requires
            0 <= line <= 0x8000_0000_0000_0000,
            0 <= lines <= 0x8000_0000_0000_0000,
    ;
    if line * lines + 2 * (count as u128) <= (most as u128) / 4 {
        Some(total)
    } else {
        None
    }
}

/// Tells whether a table can be drawn.
pub fn can_draw(rows: &Vec<Vec<String>>) -> (can: bool)
    ensures
        can == drawable(cells(rows@)),
{
    let ghost all = cells(rows@);
    if rows.len() == 0 {
        return false;
    }
    assert(all[0].len() == rows@[0]@.len());
    if rows[0].len() == 0 {
        return false;
    }
    let mut r: usize = 0;
    while r < rows.len()
        invariant
            all == cells(rows@),
            0 < rows.len(),
            r <= rows.len(),
            forall|i: int| 0 <= i < r ==> (#[trigger] all[i]).len() <= all[0].len(),
        decreases rows.len() - r,
    {
        assert(all[r as int].len() == rows@[r as int]@.len());
        if rows[r].len() > rows[0].len() {
            return false;
        }
        r = r + 1;
    }
    let found = column_widths(rows);
    assert(as_nats(found@) =~= widths(all));
    let total: usize = match line_size(rows, &found) {
        Some(total) => total,
        None => {
            return false;
        },
    };
    r = 0;
    while r < rows.len()
        invariant
            all == cells(rows@),
            0 < rows.len(),
            r <= rows.len(),
            as_nats(found@) == widths(all),
            total == column_start(as_nats(found@), found@.len() as int),
            forall|i: int| 0 <= i < all.len() ==> (#[trigger] all[i]).len() <= all[0].len(),
            forall|i: int, c: int|
                0 <= i < r && 0 <= c < all[i].len() ==> valid_utf8(
                    #[trigger] laid_column(all[i], widths(all), c),
                ),
        decreases rows.len() - r,
    {
        let ghost row = rows@[r as int];
        assert(all[r as int] == row_cells(row@));
        assert(all[r as int].len() <= all[0].len());
        assert(as_nats(found@).len() == widths(all).len());
        if !row_is_whole(&rows[r], &found, total) {
            return false;
        }
        r = r + 1;
    }
    true
}

/// What `unicode_prettytable` makes of a table: its text, or what it says was
/// wrong.
pub uninterp spec fn drawn(rows: Seq<Seq<Seq<char>>>) -> Result<Seq<char>, Seq<char>>;

/// An outcome by its text.
pub open spec fn outcome(res: Result<String, String>) -> Result<Seq<char>, Seq<char>> {
    match res {
        Ok(text) => Ok(text@),
        Err(text) => Err(text@),
    }
}

/// Calls `unicode_prettytable::TableBuilder` with the rows and no header
/// settings, and turns the table it builds into text with its `Display`.
/// Claimed: the outcome depends on the cells alone; it is named `drawn`. Left
/// out by `drawable` are the tables on which `Display` panics: it lays the
/// bytes of a cell into the line, moves on by the width of the column, which
/// it counts in characters, and in the end takes the line for UTF-8.
#[verifier::external_body]
fn draw(rows: &Vec<Vec<String>>) -> (res: Result<String, String>)
    requires
        drawable(cells(rows@)),
    ensures
        outcome(res) == drawn(cells(rows@)),
{
    match TableBuilder::default().rows(rows).build() {
        Ok(table) => Ok(table.to_string()),
        Err(e) => Err(e),
    }
}

/// The row of a track in the table of its queue.
pub open spec fn track_cells(place: nat, track: Track) -> Seq<Seq<char>> {
    seq![decimal(place), track.title_text(), track.artist_text(), track.duration_text()]
}

/// The table of a queue: its tracks in order, numbered from zero.
pub open spec fn queue_cells(q: Seq<Track>) -> Seq<Seq<Seq<char>>> {
    Seq::new(q.len(), |i: int| track_cells(i as nat, q[i]))
}

/// Whether the durations in a queue can be shown.
pub open spec fn durations_showable(q: Seq<Track>) -> bool {
    forall|i: int| 0 <= i < q.len() ==> (#[trigger] q[i]).has_showable_duration()
}

/// Whether a queue can be listed: its durations can be shown and, unless it is
/// empty, its table can be drawn.
pub open spec fn listable(q: Seq<Track>) -> bool {
    &&& durations_showable(q)
    &&& q.len() > 0 ==> drawable(queue_cells(q))
}

/// The row of a track in the table of its queue.
fn track_row(place: usize, track: &Track) -> (row: Vec<String>)
    requires
        track.has_showable_duration(),
    ensures
        row_cells(row@) == track_cells(place as nat, *track),
{
    let mut row: Vec<String> = Vec::new();
    row.push(decimal_text(place as u64));
    row.push(track.name());
    row.push(track.artist());
    row.push(track.duration());
    assert(row_cells(row@) =~= track_cells(place as nat, *track));
    row
}

/// The rows of a queue's table.
fn queue_rows(q: &VecDeque<Track>) -> (rows: Vec<Vec<String>>)
    requires
        durations_showable(q@),
    ensures
        cells(rows@) == queue_cells(q@),
{
    let mut rows: Vec<Vec<String>> = Vec::new();
    let mut i: usize = 0;
    while i < q.len()
        invariant
            durations_showable(q@),
            i <= q@.len(),
            rows@.len() == i,
            forall|j: int|
                0 <= j < i ==> row_cells((#[trigger] rows@[j])@) == track_cells(j as nat, q@[j]),
        decreases q.len() - i,
    {
        assert(q@[i as int].has_showable_duration());
        rows.push(track_row(i, &q[i]));
        i = i + 1;
    }
    assert(cells(rows@) =~= queue_cells(q@));
    rows
}

/// Tells whether a queue can be listed.
pub fn can_list(q: &VecDeque<Track>) -> (can: bool)
    ensures
        can == listable(q@),
{
    let mut i: usize = 0;
    while i < q.len()
        invariant
            i <= q@.len(),
            forall|j: int| 0 <= j < i ==> (#[trigger] q@[j]).has_showable_duration(),
        decreases q.len() - i,
    {
        let track: &Track = &q[i];
        if let Some(d) = &track.metadata.duration {
            if !can_show(d) {
                assert(!q@[i as int].has_showable_duration());
                return false;
            }
        }
        i = i + 1;
    }
    q.len() == 0 || can_draw(&queue_rows(q))
}

/// What listing a queue comes to, once its table is drawn.
pub open spec fn listed(table: Result<Seq<char>, Seq<char>>) -> Result<Seq<char>, Seq<char>> {
    match table {
        Ok(text) => Ok("```\n"@ + text + "\n```"@),
        Err(text) => Err(text),
    }
}

/// Sets a drawn table in a block of its own, or passes on why there is none.
pub fn list_table(table: Result<String, String>) -> (res: Result<String, Error>)
    ensures
        match listed(outcome(table)) {
            Ok(text) => res matches Ok(t) && t@ == text,
            Err(text) => res matches Err(Error::Failed { text: t }) && t@ == text,
        },
{
    match table {
        Ok(table) => {
            let mut text = "```\n".to_owned();
            text.append(table.as_str());
            text.append("\n```");
            Ok(text)
        },
        Err(text) => Err(Error::Failed { text }),
    }
}

/// Lists a queue.
pub fn list_queue(q: &VecDeque<Track>) -> (res: Result<String, Error>)
    requires
        listable(q@),
    ensures
        q@.len() == 0 ==> res == Err::<String, Error>(Error::NoSongsPlaying),
        q@.len() > 0 ==> match listed(drawn(queue_cells(q@))) {
            Ok(text) => res matches Ok(t) && t@ == text,
            Err(text) => res matches Err(Error::Failed { text: t }) && t@ == text,
        },
{
    let rows = queue_rows(q);
    assert(rows@.len() == cells(rows@).len());
    if rows.len() == 0 {
        return Err(Error::NoSongsPlaying);
    }
    list_table(draw(&rows))
}

} // verus!
