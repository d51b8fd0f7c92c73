//! Exporting the board as comma-separated values or as Markdown.
use vstd::prelude::*;
use crate::board::{column_name_of, column_rank, Board, Column, Task};
use crate::csv::{escape_csv, escape_of};
use crate::text::{decimal, push_decimal, push_str};

verus! {

/// The formatted text (`YYYY-MM-DD HH:MM:SS`, UTC) of a time in seconds since
/// the Unix epoch.
pub uninterp spec fn timestamp_text(secs: int) -> Seq<char>;

/// The latest time whose year still has four digits (9999-12-31 23:59:59 UTC).
pub const LAST_FOUR_DIGIT_SECOND: i64 = 253402300799;

/// Relies on chrono's `DateTime::<Utc>::from_timestamp` and `DateTime::format`
/// with `%Y-%m-%d %H:%M:%S`: the text depends on the seconds alone, and every
/// time from the epoch to the end of year 9999 can be formatted.
#[verifier::external_body]
fn format_timestamp(secs: i64) -> (r: Option<String>)
    ensures
        r matches Some(t) ==> t@ == timestamp_text(secs as int),
        0 <= secs <= LAST_FOUR_DIGIT_SECOND ==> r is Some,
{
    match chrono::DateTime::from_timestamp(secs, 0) {
        Some(d) => Some(d.format("%Y-%m-%d %H:%M:%S").to_string()),
        None => None,
    }
}

/// The text of an optional field; empty when absent.
pub open spec fn opt_text(o: Option<String>) -> Seq<char> {
    match o {
        Some(s) => s@,
        None => Seq::empty(),
    }
}

fn opt_str(o: &Option<String>) -> (r: &str)
    ensures
        r@ == opt_text(*o),
{
    match o {
        Some(s) => s.as_str(),
        None => {
            proof {
                reveal_strlit("");
            }
            ""
        },
    }
}

/// The header line of the comma-separated export.
pub open spec fn csv_header_of() -> Seq<char> {
    "ID,Title,Description,Column,Created,Updated,Branch,PR"@
}

/// The name shown for a task's column: its name, or `Unknown`.
pub open spec fn column_label(cols: Seq<Column>, id: u64) -> Seq<char> {
    match column_name_of(cols, id) {
        Some(n) => n,
        None => "Unknown"@,
    }
}

/// One line of the comma-separated export, every text field quoted as needed.
pub open spec fn csv_row_of(t: Task, column: Seq<char>, created: Seq<char>, updated: Seq<char>) -> Seq<char> {
    decimal(t.id as nat) + ","@ + escape_of(t.title@) + ","@ + escape_of(opt_text(t.description)) + ","@
        + escape_of(column) + ","@ + created + ","@ + updated + ","@ + escape_of(opt_text(t.branch_name))
        + ","@ + escape_of(opt_text(t.pr_url))
}

/// The lines for the tasks of group `g` (the tasks whose first matching column
/// is at position `g`; the last group holds tasks of unknown columns), newest
/// first.
pub open spec fn csv_group_of(cols: Seq<Column>, tasks: Seq<Task>, g: int) -> Seq<char>
    decreases tasks.len(),
{
    if tasks.len() == 0 {
        Seq::empty()
    } else {
        let t = tasks[0];
        csv_group_of(cols, tasks.skip(1), g) + if column_rank(cols, t.column_id) == g {
            csv_row_of(t, column_label(cols, t.column_id), timestamp_text(t.created_at as int),
                timestamp_text(t.updated_at as int)) + "\n"@
        } else {
            Seq::empty()
        }
    }
}

/// The lines of the first `g` groups.
pub open spec fn csv_groups_of(cols: Seq<Column>, tasks: Seq<Task>, g: nat) -> Seq<char>
    decreases g,
{
    if g == 0 {
        Seq::empty()
    } else {
        csv_groups_of(cols, tasks, (g - 1) as nat) + csv_group_of(cols, tasks, g - 1)
    }
}

/// The comma-separated export: the header, then the tasks column by column in
/// the board's column order, newest first, then the tasks of unknown columns.
pub open spec fn csv_document_of(cols: Seq<Column>, tasks: Seq<Task>) -> Seq<char> {
    csv_header_of() + "\n"@ + csv_groups_of(cols, tasks, cols.len()) + csv_group_of(cols, tasks, cols.len() as int)
}

/// Whether every task's times can be formatted.
pub open spec fn times_in_range(tasks: Seq<Task>) -> bool {
    forall|i: int| 0 <= i < tasks.len() ==> 0 <= (#[trigger] tasks[i]).created_at <= LAST_FOUR_DIGIT_SECOND
        && 0 <= tasks[i].updated_at <= LAST_FOUR_DIGIT_SECOND
}

/// One line of the comma-separated export for a task, from its column's name
/// and its formatted times.
pub fn csv_row_with_times(task: &Task, column: &str, created: &str, updated: &str) -> (r: String)
    ensures
        r@ == csv_row_of(*task, column@, created@, updated@),
{
    let mut s = String::new();
    push_decimal(&mut s, task.id);
    push_str(&mut s, ",");
    push_str(&mut s, escape_csv(task.title.as_str()).as_str());
    push_str(&mut s, ",");
    push_str(&mut s, escape_csv(opt_str(&task.description)).as_str());
    push_str(&mut s, ",");
    push_str(&mut s, escape_csv(column).as_str());
    push_str(&mut s, ",");
    push_str(&mut s, created);
    push_str(&mut s, ",");
    push_str(&mut s, updated);
    push_str(&mut s, ",");
    push_str(&mut s, escape_csv(opt_str(&task.branch_name)).as_str());
    push_str(&mut s, ",");
    push_str(&mut s, escape_csv(opt_str(&task.pr_url)).as_str());
    s
}

/// The header line of the comma-separated export.
pub fn csv_header() -> (r: String)
    ensures
        r@ == csv_header_of(),
{
    String::from_str("ID,Title,Description,Column,Created,Updated,Branch,PR")
}

impl Board {
    /// The name shown for the column with id `id`.
    fn column_label_text(&self, id: u64) -> (r: String)
        ensures
            r@ == column_label(self.columns@, id),
    {
        match self.column_position(id) {
            Some(k) => self.columns[k].name.clone(),
            None => String::from_str("Unknown"),
        }
    }

    /// One line of the comma-separated export for the task at position `i`;
    /// `None` when one of its times cannot be formatted.
    pub fn csv_row(&self, i: usize) -> (r: Option<String>)
        requires
            i < self.tasks@.len(),
        ensures
            r matches Some(s) ==> s@ == csv_row_of(self.tasks@[i as int],
                column_label(self.columns@, self.tasks@[i as int].column_id),
                timestamp_text(self.tasks@[i as int].created_at as int),
                timestamp_text(self.tasks@[i as int].updated_at as int)),
            0 <= self.tasks@[i as int].created_at <= LAST_FOUR_DIGIT_SECOND
                && 0 <= self.tasks@[i as int].updated_at <= LAST_FOUR_DIGIT_SECOND ==> r is Some,
    {
        let t = &self.tasks[i];
        let created = match format_timestamp(t.created_at) {
            Some(c) => c,
            None => return None,
        };
        let updated = match format_timestamp(t.updated_at) {
            Some(u) => u,
            None => return None,
        };
        let column = self.column_label_text(t.column_id);
        Some(csv_row_with_times(t, column.as_str(), created.as_str(), updated.as_str()))
    }

    /// The lines of group `g` of the comma-separated export; `None` when a
    /// task's time cannot be formatted.
    fn csv_group(&self, g: usize) -> (r: Option<String>)
        requires
            g <= self.columns@.len(),
        ensures
            r matches Some(s) ==> s@ == csv_group_of(self.columns@, self.tasks@, g as int),
            times_in_range(self.tasks@) ==> r is Some,
    {
        let ncols = self.columns.len();
        let n = self.tasks.len();
        let mut group = String::new();
        let mut i: usize = n;
        while i > 0
            invariant
                n == self.tasks@.len(),
                i <= n,
                g <= ncols,
                ncols == self.columns@.len(),
                group@ == csv_group_of(self.columns@, self.tasks@.subrange(i as int, n as int), g as int),
            decreases i,
        {
            let j = i - 1;
            let ghost sub = self.tasks@.subrange(j as int, n as int);
            assert(sub.skip(1) == self.tasks@.subrange(i as int, n as int));
            assert(sub[0] == self.tasks@[j as int]);
            let rank: usize = match self.column_position(self.tasks[j].column_id) {
                Some(k) => k,
                None => ncols,
            };
            if rank == g {
                let row = match self.csv_row(j) {
                    Some(row) => row,
                    None => return None,
                };
                push_str(&mut group, row.as_str());
                push_str(&mut group, "\n");
            } else {
                assert(group@ + Seq::<char>::empty() == group@);
            }
            i = j;
        }
        assert(self.tasks@.subrange(0, n as int) == self.tasks@);
        Some(group)
    }

    /// The whole comma-separated export; `None` when a task's time cannot be
    /// formatted.
    pub fn export_csv(&self) -> (r: Option<String>)
        ensures
            r matches Some(s) ==> s@ == csv_document_of(self.columns@, self.tasks@),
            times_in_range(self.tasks@) ==> r is Some,
    {
        let mut out = csv_header();
        push_str(&mut out, "\n");
        let ncols = self.columns.len();
        let mut g: usize = 0;
        while g < ncols
            invariant
                ncols == self.columns@.len(),
                g <= ncols,
                out@ == csv_header_of() + "\n"@ + csv_groups_of(self.columns@, self.tasks@, g as nat),
            decreases ncols - g,
        {
            match self.csv_group(g) {
                Some(group) => push_str(&mut out, group.as_str()),
                None => return None,
            }
            g = g + 1;
        }
        match self.csv_group(ncols) {
            Some(group) => push_str(&mut out, group.as_str()),
            None => return None,
        }
        Some(out)
    }
}

/// The Markdown lines for one task.
pub open spec fn task_markdown_of(t: Task) -> Seq<char> {
    "- **#"@ + decimal(t.id as nat) + "**: "@ + t.title@ + "\n"@
        + match t.description {
            Some(d) => "  - "@ + d@ + "\n"@,
            None => Seq::empty(),
        }
        + match t.branch_name {
            Some(b) => "  - Branch: `"@ + b@ + "`\n"@,
            None => Seq::empty(),
        }
        + match t.pr_url {
            Some(p) => "  - PR: "@ + p@ + "\n"@,
            None => Seq::empty(),
        }
        + "\n"@
}

/// The Markdown lines for the tasks of column `id`, newest first.
pub open spec fn markdown_items_of(tasks: Seq<Task>, id: u64) -> Seq<char>
    decreases tasks.len(),
{
    if tasks.len() == 0 {
        Seq::empty()
    } else {
        markdown_items_of(tasks.skip(1), id) + if tasks[0].column_id == id {
            task_markdown_of(tasks[0])
        } else {
            Seq::empty()
        }
    }
}

/// How many tasks are in column `id`.
pub open spec fn count_in_column(tasks: Seq<Task>, id: u64) -> nat
    decreases tasks.len(),
{
    if tasks.len() == 0 {
        0
    } else {
        count_in_column(tasks.skip(1), id) + if tasks[0].column_id == id { 1nat } else { 0nat }
    }
}

/// The Markdown section of one column: a heading with the column's name and
/// task count, then its tasks.
pub open spec fn markdown_section_of(c: Column, tasks: Seq<Task>) -> Seq<char> {
    "## "@ + c.name@ + " ("@ + decimal(count_in_column(tasks, c.id)) + ")\n\n"@ + markdown_items_of(tasks, c.id)
}

/// The Markdown sections of a list of columns, in order.
pub open spec fn markdown_sections_of(cols: Seq<Column>, tasks: Seq<Task>) -> Seq<char>
    decreases cols.len(),
{
    if cols.len() == 0 {
        Seq::empty()
    } else {
        markdown_sections_of(cols.drop_last(), tasks) + markdown_section_of(cols.last(), tasks)
    }
}

/// The Markdown export: a title, then one section per column.
pub open spec fn markdown_document_of(cols: Seq<Column>, tasks: Seq<Task>) -> Seq<char> {
    "# ProjectBoard Export\n\n"@ + markdown_sections_of(cols, tasks)
}

fn push_optional_line(s: &mut String, prefix: &str, o: &Option<String>, suffix: &str)
    ensures
        final(s)@ == old(s)@ + match *o {
            Some(v) => prefix@ + v@ + suffix@,
            None => Seq::empty(),
        },
{
    match o {
        Some(v) => {
            push_str(s, prefix);
            push_str(s, v.as_str());
            push_str(s, suffix);
        },
        None => {
            assert(s@ + Seq::<char>::empty() == s@);
        },
    }
}

/// The Markdown lines for one task.
pub fn task_markdown(t: &Task) -> (r: String)
    ensures
        r@ == task_markdown_of(*t),
{
    let mut s = String::new();
    push_str(&mut s, "- **#");
    push_decimal(&mut s, t.id);
    push_str(&mut s, "**: ");
    push_str(&mut s, t.title.as_str());
    push_str(&mut s, "\n");
    push_optional_line(&mut s, "  - ", &t.description, "\n");
    push_optional_line(&mut s, "  - Branch: `", &t.branch_name, "`\n");
    push_optional_line(&mut s, "  - PR: ", &t.pr_url, "\n");
    push_str(&mut s, "\n");
    s
}

impl Board {
    /// The whole Markdown export.
    pub fn export_markdown(&self) -> (r: String)
        ensures
            r@ == markdown_document_of(self.columns@, self.tasks@),
    {
        let mut out = String::from_str("# ProjectBoard Export\n\n");
        let ncols = self.columns.len();
        let n = self.tasks.len();
        let mut c: usize = 0;
        while c < ncols
            invariant
                ncols == self.columns@.len(),
                n == self.tasks@.len(),
                c <= ncols,
                out@ == "# ProjectBoard Export\n\n"@ + markdown_sections_of(self.columns@.subrange(0, c as int), self.tasks@),
            decreases ncols - c,
        {
            let id = self.columns[c].id;
            let mut items = String::new();
            let mut count: usize = 0;
            let mut i: usize = n;
            while i > 0
                invariant
                    n == self.tasks@.len(),
                    i <= n,
                    count <= n - i,
                    items@ == markdown_items_of(self.tasks@.subrange(i as int, n as int), id),
                    count == count_in_column(self.tasks@.subrange(i as int, n as int), id),
                decreases i,
            {
                let j = i - 1;
                let ghost sub = self.tasks@.subrange(j as int, n as int);
                assert(sub.skip(1) == self.tasks@.subrange(i as int, n as int));
                assert(sub[0] == self.tasks@[j as int]);
                if self.tasks[j].column_id == id {
                    push_str(&mut items, task_markdown(&self.tasks[j]).as_str());
                    count = count + 1;
                } else {
                    assert(items@ + Seq::<char>::empty() == items@);
                }
                i = j;
            }
            assert(self.tasks@.subrange(0, n as int) == self.tasks@);
            push_str(&mut out, "## ");
            push_str(&mut out, self.columns[c].name.as_str());
            push_str(&mut out, " (");
            push_decimal(&mut out, count as u64);
            push_str(&mut out, ")\n\n");
            push_str(&mut out, items.as_str());
            let ghost cols = self.columns@.subrange(0, c + 1);
            assert(cols.drop_last() == self.columns@.subrange(0, c as int));
            assert(cols.last() == self.columns@[c as int]);
            c = c + 1;
        }
        assert(self.columns@.subrange(0, ncols as int) == self.columns@);
        out
    }
}

} // verus!
