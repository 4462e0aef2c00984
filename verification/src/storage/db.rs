//! Records of the sync database and the status report built from them.
use vstd::prelude::*;
use vstd::utf8::encode_utf8;
use crate::text::{decimal, push_char, push_str, u64_to_decimal};

verus! {

/// The last post seen of a source.
#[derive(Debug, Clone)]
pub struct Cursor {
    pub last_post_id: String,
    pub last_post_utc: i64,
}

/// Aggregate counts of downloaded posts.
#[derive(Debug, Clone)]
pub struct Stats {
    pub total_posts: u64,
    /// (source_type, source_name, count)
    pub posts_by_source: Vec<(String, String, u64)>,
}

/// A stored cursor as the status report shows it: its source, the cursor,
/// and when it was last updated, already formatted.
#[derive(Debug, Clone)]
pub struct CursorEntry {
    pub source_type: String,
    pub source_name: String,
    pub cursor: Cursor,
    pub last_sync: String,
}

/// The length in bytes of a string's UTF-8 encoding (`str::len`).
pub open spec fn byte_len(s: Seq<char>) -> nat {
    encode_utf8(s).len()
}

/// `n` copies of `c`.
pub open spec fn repeat_char(c: char, n: nat) -> Seq<char> {
    Seq::new(n, |i: int| c)
}

/// `format!("{:<w$}", s)`: `s` padded with spaces on the right to `w` characters.
pub open spec fn pad_right(s: Seq<char>, w: nat) -> Seq<char> {
    if s.len() < w {
        s + repeat_char(' ', (w - s.len()) as nat)
    } else {
        s
    }
}

/// `format!("{:>w$}", s)`: `s` padded with spaces on the left to `w` characters.
pub open spec fn pad_left(s: Seq<char>, w: nat) -> Seq<char> {
    if s.len() < w {
        repeat_char(' ', (w - s.len()) as nat) + s
    } else {
        s
    }
}

/// The widest of some byte lengths, and at least `min`.
pub open spec fn column_width(lens: Seq<nat>, min: nat) -> nat
    decreases lens.len(),
{
    if lens.len() == 0 {
        min
    } else {
        let w = column_width(lens.drop_last(), min);
        if lens.last() > w {
            lens.last()
        } else {
            w
        }
    }
}

/// The line introducing a table and the line of dashes below its header.
pub open spec fn stats_row(t: Seq<char>, n: Seq<char>, count: Seq<char>, tw: nat, nw: nat) -> Seq<char> {
    "  "@ + pad_right(t, tw) + "  "@ + pad_right(n, nw) + "  "@ + pad_left(count, 6)
}

/// A row of the cursor table.
pub open spec fn cursor_row(t: Seq<char>, n: Seq<char>, id: Seq<char>, last: Seq<char>, tw: nat, nw: nat, iw: nat) -> Seq<
    char,
> {
    "  "@ + pad_right(t, tw) + "  "@ + pad_right(n, nw) + "  "@ + pad_right(id, iw) + "  "@ + last
}

/// The lines of the posts-by-source table.
pub open spec fn stats_lines(rows: Seq<(String, String, u64)>) -> Seq<Seq<char>> {
    let tw = column_width(rows.map_values(|r: (String, String, u64)| byte_len(r.0@)), 4);
    let nw = column_width(rows.map_values(|r: (String, String, u64)| byte_len(r.1@)), 4);
    seq![
        "Posts by source:"@,
        stats_row("Type"@, "Name"@, "Posts"@, tw, nw),
        "  "@ + repeat_char('-', tw) + "  "@ + repeat_char('-', nw) + "  ------"@,
    ] + rows.map_values(
        |r: (String, String, u64)| stats_row(r.0@, r.1@, decimal(r.2 as nat), tw, nw),
    ) + seq![Seq::empty()]
}

/// The lines of the cursor table.
pub open spec fn cursor_lines(cs: Seq<CursorEntry>) -> Seq<Seq<char>> {
    let tw = column_width(cs.map_values(|c: CursorEntry| byte_len(c.source_type@)), 4);
    let nw = column_width(cs.map_values(|c: CursorEntry| byte_len(c.source_name@)), 4);
    let iw = column_width(cs.map_values(|c: CursorEntry| byte_len(c.cursor.last_post_id@)), 7);
    seq![
        "Sync cursors (last known position per source):"@,
        cursor_row("Type"@, "Name"@, "Last ID"@, "Last Sync"@, tw, nw, iw),
        "  "@ + repeat_char('-', tw) + "  "@ + repeat_char('-', nw) + "  "@ + repeat_char('-', iw)
            + "  "@ + repeat_char('-', 19),
    ] + cs.map_values(
        |c: CursorEntry|
            cursor_row(c.source_type@, c.source_name@, c.cursor.last_post_id@, c.last_sync@, tw, nw, iw),
    )
}

/// The message shown when nothing was synced yet.
pub open spec fn no_data_message() -> Seq<char> {
    "No sync data found. Run 'reddit-dl sync' first."@
}

/// The status report: the total, then the posts-by-source table and the
/// cursor table, each only when it has rows; or the no-data message when
/// nothing was downloaded and no cursor is stored.
pub open spec fn status_report_spec(stats: Stats, cursors: Seq<CursorEntry>) -> Seq<Seq<char>> {
    if stats.total_posts == 0 && cursors.len() == 0 {
        seq![no_data_message()]
    } else {
        seq!["reddit-dl status"@, repeat_char('=', 60), "Total posts downloaded: "@ + decimal(
            stats.total_posts as nat,
        ), Seq::empty()] + (if stats.posts_by_source@.len() > 0 {
            stats_lines(stats.posts_by_source@)
        } else {
            Seq::empty()
        }) + (if cursors.len() > 0 {
            cursor_lines(cursors)
        } else {
            Seq::empty()
        })
    }
}

/// Appends `n` copies of `c`.
fn push_repeat(s: &mut String, c: char, n: usize)
    ensures
        final(s)@ == old(s)@ + repeat_char(c, n as nat),
{
    let mut i: usize = 0;
    while i < n
        invariant
            i <= n,
            s@ == old(s)@ + repeat_char(c, i as nat),
        decreases n - i,
    {
        push_char(s, c);
        assert(repeat_char(c, (i + 1) as nat) == repeat_char(c, i as nat).push(c));
        i = i + 1;
    }
}

/// Appends `t` padded on the right to `w` characters.
fn push_padded_right(s: &mut String, t: &str, w: usize)
    ensures
        final(s)@ == old(s)@ + pad_right(t@, w as nat),
{
    let n = t.unicode_len();
    push_str(s, t);
    if n < w {
        push_repeat(s, ' ', w - n);
    }
}

/// Appends `t` padded on the left to `w` characters.
fn push_padded_left(s: &mut String, t: &str, w: usize)
    ensures
        final(s)@ == old(s)@ + pad_left(t@, w as nat),
{
    let n = t.unicode_len();
    if n < w {
        push_repeat(s, ' ', w - n);
    }
    push_str(s, t);
}

fn stats_widths(rows: &Vec<(String, String, u64)>) -> (r: (usize, usize))
    ensures
        r.0 == column_width(rows@.map_values(|r: (String, String, u64)| byte_len(r.0@)), 4),
        r.1 == column_width(rows@.map_values(|r: (String, String, u64)| byte_len(r.1@)), 4),
{
    let ghost ls0 = rows@.map_values(|r: (String, String, u64)| byte_len(r.0@));
    let ghost ls1 = rows@.map_values(|r: (String, String, u64)| byte_len(r.1@));
    let mut tw: usize = 4;
    let mut nw: usize = 4;
    let mut i: usize = 0;
    while i < rows.len()
        invariant
            i <= rows.len(),
            ls0 == rows@.map_values(|r: (String, String, u64)| byte_len(r.0@)),
            ls1 == rows@.map_values(|r: (String, String, u64)| byte_len(r.1@)),
            tw == column_width(ls0.take(i as int), 4),
            nw == column_width(ls1.take(i as int), 4),
        decreases rows.len() - i,
    {
        assert(ls0.take(i + 1).drop_last() == ls0.take(i as int));
        assert(ls1.take(i + 1).drop_last() == ls1.take(i as int));
        let a = rows[i].0.as_str().as_bytes().len();
        let b = rows[i].1.as_str().as_bytes().len();
        assert(ls0.take(i + 1).last() == ls0[i as int]);
        assert(ls1.take(i + 1).last() == ls1[i as int]);
        assert(a == ls0[i as int]);
        assert(b == ls1[i as int]);
        if a > tw {
            tw = a;
        }
        if b > nw {
            nw = b;
        }
        i = i + 1;
    }
    assert(ls0.take(rows.len() as int) == ls0);
    assert(ls1.take(rows.len() as int) == ls1);
    (tw, nw)
}

fn cursor_widths(cs: &Vec<CursorEntry>) -> (r: (usize, usize, usize))
    ensures
        r.0 == column_width(cs@.map_values(|c: CursorEntry| byte_len(c.source_type@)), 4),
        r.1 == column_width(cs@.map_values(|c: CursorEntry| byte_len(c.source_name@)), 4),
        r.2 == column_width(cs@.map_values(|c: CursorEntry| byte_len(c.cursor.last_post_id@)), 7),
{
    let ghost ls0 = cs@.map_values(|c: CursorEntry| byte_len(c.source_type@));
    let ghost ls1 = cs@.map_values(|c: CursorEntry| byte_len(c.source_name@));
    let ghost ls2 = cs@.map_values(|c: CursorEntry| byte_len(c.cursor.last_post_id@));
    let mut tw: usize = 4;
    let mut nw: usize = 4;
    let mut iw: usize = 7;
    let mut i: usize = 0;
    while i < cs.len()
        invariant
            i <= cs.len(),
            ls0 == cs@.map_values(|c: CursorEntry| byte_len(c.source_type@)),
            ls1 == cs@.map_values(|c: CursorEntry| byte_len(c.source_name@)),
            ls2 == cs@.map_values(|c: CursorEntry| byte_len(c.cursor.last_post_id@)),
            tw == column_width(ls0.take(i as int), 4),
            nw == column_width(ls1.take(i as int), 4),
            iw == column_width(ls2.take(i as int), 7),
        decreases cs.len() - i,
    {
        assert(ls0.take(i + 1).drop_last() == ls0.take(i as int));
        assert(ls1.take(i + 1).drop_last() == ls1.take(i as int));
        assert(ls2.take(i + 1).drop_last() == ls2.take(i as int));
        let a = cs[i].source_type.as_str().as_bytes().len();
        let b = cs[i].source_name.as_str().as_bytes().len();
        let c = cs[i].cursor.last_post_id.as_str().as_bytes().len();
        assert(ls0.take(i + 1).last() == ls0[i as int]);
        assert(ls1.take(i + 1).last() == ls1[i as int]);
        assert(ls2.take(i + 1).last() == ls2[i as int]);
        assert(a == ls0[i as int]);
        assert(b == ls1[i as int]);
        assert(c == ls2[i as int]);
        if a > tw {
            tw = a;
        }
        if b > nw {
            nw = b;
        }
        if c > iw {
            iw = c;
        }
        i = i + 1;
    }
    assert(ls0.take(cs.len() as int) == ls0);
    assert(ls1.take(cs.len() as int) == ls1);
    assert(ls2.take(cs.len() as int) == ls2);
    (tw, nw, iw)
}

fn push_stats_lines(lines: &mut Vec<String>, rows: &Vec<(String, String, u64)>)
    ensures
        final(lines)@.map_values(|l: String| l@) == old(lines)@.map_values(|l: String| l@)
            + stats_lines(rows@),
{
    let ghost start = lines@.map_values(|l: String| l@);
    let (tw, nw) = stats_widths(rows);
    lines.push(String::from_str("Posts by source:"));
    let mut header = String::from_str("  ");
    push_padded_right(&mut header, "Type", tw);
    push_str(&mut header, "  ");
    push_padded_right(&mut header, "Name", nw);
    push_str(&mut header, "  ");
    push_padded_left(&mut header, "Posts", 6);
    lines.push(header);
    let mut rule = String::from_str("  ");
    push_repeat(&mut rule, '-', tw);
    push_str(&mut rule, "  ");
    push_repeat(&mut rule, '-', nw);
    push_str(&mut rule, "  ------");
    lines.push(rule);
    let ghost head = lines@.map_values(|l: String| l@);
    assert(head == start + seq![
        "Posts by source:"@,
        stats_row("Type"@, "Name"@, "Posts"@, tw as nat, nw as nat),
        "  "@ + repeat_char('-', tw as nat) + "  "@ + repeat_char('-', nw as nat) + "  ------"@,
    ]);
    let ghost body = rows@.map_values(
        |r: (String, String, u64)| stats_row(r.0@, r.1@, decimal(r.2 as nat), tw as nat, nw as nat),
    );
    let mut i: usize = 0;
    while i < rows.len()
        invariant
            i <= rows.len(),
            body == rows@.map_values(
                |r: (String, String, u64)| stats_row(r.0@, r.1@, decimal(r.2 as nat), tw as nat, nw as nat),
            ),
            lines@.map_values(|l: String| l@) == head + body.take(i as int),
        decreases rows.len() - i,
    {
        let ghost prev = lines@.map_values(|l: String| l@);
        let mut row = String::from_str("  ");
        push_padded_right(&mut row, rows[i].0.as_str(), tw);
        push_str(&mut row, "  ");
        push_padded_right(&mut row, rows[i].1.as_str(), nw);
        push_str(&mut row, "  ");
        let count = u64_to_decimal(rows[i].2);
        push_padded_left(&mut row, count.as_str(), 6);
        assert(row@ == body[i as int]);
        lines.push(row);
        assert(body.take(i + 1) == body.take(i as int).push(body[i as int]));
        assert(lines@.map_values(|l: String| l@) == prev.push(row@));
        i = i + 1;
    }
    assert(body.take(rows.len() as int) == body);
    lines.push(String::new());
    assert(lines@.map_values(|l: String| l@) == head + body + seq![Seq::<char>::empty()]);
}

fn push_cursor_lines(lines: &mut Vec<String>, cs: &Vec<CursorEntry>)
    ensures
        final(lines)@.map_values(|l: String| l@) == old(lines)@.map_values(|l: String| l@)
            + cursor_lines(cs@),
{
    let ghost start = lines@.map_values(|l: String| l@);
    let (tw, nw, iw) = cursor_widths(cs);
    lines.push(String::from_str("Sync cursors (last known position per source):"));
    let mut header = String::from_str("  ");
    push_padded_right(&mut header, "Type", tw);
    push_str(&mut header, "  ");
    push_padded_right(&mut header, "Name", nw);
    push_str(&mut header, "  ");
    push_padded_right(&mut header, "Last ID", iw);
    push_str(&mut header, "  ");
    push_str(&mut header, "Last Sync");
    lines.push(header);
    let mut rule = String::from_str("  ");
    push_repeat(&mut rule, '-', tw);
    push_str(&mut rule, "  ");
    push_repeat(&mut rule, '-', nw);
    push_str(&mut rule, "  ");
    push_repeat(&mut rule, '-', iw);
    push_str(&mut rule, "  ");
    push_repeat(&mut rule, '-', 19);
    lines.push(rule);
    let ghost head = lines@.map_values(|l: String| l@);
    assert(head == start + seq![
        "Sync cursors (last known position per source):"@,
        cursor_row("Type"@, "Name"@, "Last ID"@, "Last Sync"@, tw as nat, nw as nat, iw as nat),
        "  "@ + repeat_char('-', tw as nat) + "  "@ + repeat_char('-', nw as nat) + "  "@
            + repeat_char('-', iw as nat) + "  "@ + repeat_char('-', 19),
    ]);
    let ghost body = cs@.map_values(
        |c: CursorEntry|
            cursor_row(
                c.source_type@,
                c.source_name@,
                c.cursor.last_post_id@,
                c.last_sync@,
                tw as nat,
                nw as nat,
                iw as nat,
            ),
    );
    let mut i: usize = 0;
    while i < cs.len()
        invariant
            i <= cs.len(),
            body == cs@.map_values(
                |c: CursorEntry|
                    cursor_row(
                        c.source_type@,
                        c.source_name@,
                        c.cursor.last_post_id@,
                        c.last_sync@,
                        tw as nat,
                        nw as nat,
                        iw as nat,
                    ),
            ),
            lines@.map_values(|l: String| l@) == head + body.take(i as int),
        decreases cs.len() - i,
    {
        let ghost prev = lines@.map_values(|l: String| l@);
        let mut row = String::from_str("  ");
        push_padded_right(&mut row, cs[i].source_type.as_str(), tw);
        push_str(&mut row, "  ");
        push_padded_right(&mut row, cs[i].source_name.as_str(), nw);
        push_str(&mut row, "  ");
        push_padded_right(&mut row, cs[i].cursor.last_post_id.as_str(), iw);
        push_str(&mut row, "  ");
        push_str(&mut row, cs[i].last_sync.as_str());
        assert(row@ == body[i as int]);
        lines.push(row);
        assert(body.take(i + 1) == body.take(i as int).push(body[i as int]));
        assert(lines@.map_values(|l: String| l@) == prev.push(row@));
        i = i + 1;
    }
    assert(body.take(cs.len() as int) == body);
}

/// The lines the `status` command prints.
pub fn status_report(stats: &Stats, cursors: &Vec<CursorEntry>) -> (r: Vec<String>)
    ensures
        r@.map_values(|l: String| l@) == status_report_spec(*stats, cursors@),
{
    let mut lines: Vec<String> = Vec::new();
    if stats.total_posts == 0 && cursors.len() == 0 {
        lines.push(String::from_str("No sync data found. Run 'reddit-dl sync' first."));
        assert(lines@.map_values(|l: String| l@) == seq![no_data_message()]);
        return lines;
    }
    lines.push(String::from_str("reddit-dl status"));
    let mut rule = String::new();
    push_repeat(&mut rule, '=', 60);
    lines.push(rule);
    let mut total = String::from_str("Total posts downloaded: ");
    let n = u64_to_decimal(stats.total_posts);
    push_str(&mut total, n.as_str());
    lines.push(total);
    lines.push(String::new());
    let ghost head = lines@.map_values(|l: String| l@);
    assert(head == seq!["reddit-dl status"@, repeat_char('=', 60), "Total posts downloaded: "@
        + decimal(stats.total_posts as nat), Seq::<char>::empty()]);
    if stats.posts_by_source.len() > 0 {
        push_stats_lines(&mut lines, &stats.posts_by_source);
    }
    let ghost mid = lines@.map_values(|l: String| l@);
    if cursors.len() > 0 {
        push_cursor_lines(&mut lines, cursors);
    }
    assert(lines@.map_values(|l: String| l@) == status_report_spec(*stats, cursors@));
    lines
}

} // verus!
