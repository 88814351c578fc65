//! The authorised-app listing formatter: renders a list of authorised
//! applications either as a human-readable table or as machine-parsable
//! tab-separated lines. Pure formatting, in the order of the input list.

use vstd::prelude::*;

use crate::table::{render_table, table_text};
use crate::types::{
    append_container_entry, append_perm_list, container_entry_text, perm_list_text, AppRecord,
    ContainerPerms, ListMode,
};

verus! {

/// One container in the machine-parsable line: `name:Insert|Update`.
pub open spec fn parsable_container_text(c: ContainerPerms) -> Seq<char> {
    c.container@ + ":"@ + perm_list_text(c.perms, "|"@)
}

/// The container group of one parsable line, comma-joined, no trailing
/// separator.
pub open spec fn parsable_containers_text(cs: Seq<ContainerPerms>) -> Seq<char>
    decreases cs.len(),
{
    if cs.len() == 0 {
        Seq::empty()
    } else if cs.len() == 1 {
        parsable_container_text(cs[0])
    } else {
        parsable_containers_text(cs.drop_last()) + ","@ + parsable_container_text(cs.last())
    }
}

/// One parsable line: id, name, vendor and the bracketed container group,
/// tab-separated.
pub open spec fn parsable_line_text(a: AppRecord) -> Seq<char> {
    a.app.id@ + "\t"@ + a.app.name@ + "\t"@ + a.app.vendor@ + "\t["@ + parsable_containers_text(
        a.containers@,
    ) + "]"@
}

/// All parsable lines in input order, newline-joined, no trailing newline.
pub open spec fn parsable_text(apps: Seq<AppRecord>) -> Seq<char>
    decreases apps.len(),
{
    if apps.len() == 0 {
        Seq::empty()
    } else if apps.len() == 1 {
        parsable_line_text(apps[0])
    } else {
        parsable_text(apps.drop_last()) + "\n"@ + parsable_line_text(apps.last())
    }
}

/// The multi-line permissions cell of one pretty row: one
/// `name: [Insert, Update]` line per container, each ending in a newline.
pub open spec fn pretty_cell_text(cs: Seq<ContainerPerms>) -> Seq<char>
    decreases cs.len(),
{
    if cs.len() == 0 {
        Seq::empty()
    } else {
        pretty_cell_text(cs.drop_last()) + container_entry_text(cs.last()) + "\n"@
    }
}

/// One pretty row: the app's identity and its permissions cell.
pub open spec fn pretty_row_text(a: AppRecord) -> Seq<Seq<char>> {
    seq![a.app.id@, a.app.name@, a.app.vendor@, pretty_cell_text(a.containers@)]
}

/// One pretty row per app, in input order.
pub open spec fn pretty_app_rows(apps: Seq<AppRecord>) -> Seq<Seq<Seq<char>>>
    decreases apps.len(),
{
    if apps.len() == 0 {
        Seq::empty()
    } else {
        pretty_app_rows(apps.drop_last()).push(pretty_row_text(apps.last()))
    }
}

/// The rows of the pretty table: a title row, a header row, then one row
/// per app in input order.
pub open spec fn pretty_rows_text(apps: Seq<AppRecord>) -> Seq<Seq<Seq<char>>> {
    seq![seq!["Authorised Applications"@], seq!["Id"@, "Name"@, "Vendor"@, "Permissions"@]]
        + pretty_app_rows(apps)
}

/// What `format` yields for each mode.
pub open spec fn format_text(apps: Seq<AppRecord>, mode: ListMode) -> Seq<char> {
    match mode {
        ListMode::Pretty => table_text(pretty_rows_text(apps)),
        ListMode::Parsable => parsable_text(apps),
    }
}

fn append_parsable_containers(out: &mut String, cs: &Vec<ContainerPerms>)
    ensures
        final(out)@ == old(out)@ + parsable_containers_text(cs@),
{
    let mut i: usize = 0;
    while i < cs.len()
        invariant
            i <= cs.len(),
            out@ == old(out)@ + parsable_containers_text(cs@.take(i as int)),
        decreases cs.len() - i,
    {
        if i > 0 {
            out.append(",");
        }
        out.append(cs[i].container.as_str());
        out.append(":");
        append_perm_list(out, &cs[i].perms, "|");
        proof {
            assert(cs@.take(i as int + 1).drop_last() =~= cs@.take(i as int));
            assert(cs@.take(i as int + 1).last() == cs@[i as int]);
            assert(out@ =~= old(out)@ + parsable_containers_text(cs@.take(i as int + 1)));
        }
        i += 1;
    }
    proof {
        assert(cs@.take(cs@.len() as int) =~= cs@);
    }
}

fn append_parsable_line(out: &mut String, a: &AppRecord)
    ensures
        final(out)@ == old(out)@ + parsable_line_text(*a),
{
    out.append(a.app.id.as_str());
    out.append("\t");
    out.append(a.app.name.as_str());
    out.append("\t");
    out.append(a.app.vendor.as_str());
    out.append("\t[");
    append_parsable_containers(out, &a.containers);
    out.append("]");
    proof {
        assert(out@ =~= old(out)@ + parsable_line_text(*a));
    }
}

fn format_parsable(apps: &Vec<AppRecord>) -> (out: String)
    ensures
        out@ == parsable_text(apps@),
{
    let mut out = String::new();
    let mut i: usize = 0;
    while i < apps.len()
        invariant
            i <= apps.len(),
            out@ == parsable_text(apps@.take(i as int)),
        decreases apps.len() - i,
    {
        if i > 0 {
            out.append("\n");
        }
        append_parsable_line(&mut out, &apps[i]);
        proof {
            assert(apps@.take(i as int + 1).drop_last() =~= apps@.take(i as int));
            assert(apps@.take(i as int + 1).last() == apps@[i as int]);
            assert(out@ =~= parsable_text(apps@.take(i as int + 1)));
        }
        i += 1;
    }
    proof {
        assert(apps@.take(apps@.len() as int) =~= apps@);
    }
    out
}

fn append_pretty_cell(out: &mut String, cs: &Vec<ContainerPerms>)
    ensures
        final(out)@ == old(out)@ + pretty_cell_text(cs@),
{
    let mut i: usize = 0;
    while i < cs.len()
        invariant
            i <= cs.len(),
            out@ == old(out)@ + pretty_cell_text(cs@.take(i as int)),
        decreases cs.len() - i,
    {
        append_container_entry(out, &cs[i]);
        out.append("\n");
        proof {
            assert(cs@.take(i as int + 1).drop_last() =~= cs@.take(i as int));
            assert(cs@.take(i as int + 1).last() == cs@[i as int]);
            assert(out@ =~= old(out)@ + pretty_cell_text(cs@.take(i as int + 1)));
        }
        i += 1;
    }
    proof {
        assert(cs@.take(cs@.len() as int) =~= cs@);
    }
}

fn build_app_row(a: &AppRecord) -> (row: Vec<String>)
    ensures
        row.deep_view() == pretty_row_text(*a),
{
    let mut cell = String::new();
    append_pretty_cell(&mut cell, &a.containers);
    proof {
        assert(cell@ =~= pretty_cell_text(a.containers@));
    }
    let mut row: Vec<String> = Vec::new();
    row.push(a.app.id.clone());
    row.push(a.app.name.clone());
    row.push(a.app.vendor.clone());
    row.push(cell);
    proof {
        assert(row.deep_view() =~= pretty_row_text(*a));
    }
    row
}

fn format_pretty(apps: &Vec<AppRecord>) -> (out: String)
    ensures
        out@ == table_text(pretty_rows_text(apps@)),
{
    let mut rows: Vec<Vec<String>> = Vec::new();
    let mut title: Vec<String> = Vec::new();
    title.push(String::from_str("Authorised Applications"));
    rows.push(title);
    let mut header: Vec<String> = Vec::new();
    header.push(String::from_str("Id"));
    header.push(String::from_str("Name"));
    header.push(String::from_str("Vendor"));
    header.push(String::from_str("Permissions"));
    rows.push(header);
    proof {
        assert(rows.deep_view() =~~= pretty_rows_text(apps@.take(0)));
    }
    let mut i: usize = 0;
    while i < apps.len()
        invariant
            i <= apps.len(),
            rows.deep_view() == pretty_rows_text(apps@.take(i as int)),
        decreases apps.len() - i,
    {
        let row = build_app_row(&apps[i]);
        let ghost prev_rows = rows.deep_view();
        let ghost rowv = row.deep_view();
        rows.push(row);
        proof {
            assert(rows.deep_view() =~= prev_rows.push(rowv));
            assert(apps@.take(i as int + 1).drop_last() =~= apps@.take(i as int));
            assert(apps@.take(i as int + 1).last() == apps@[i as int]);
            assert(pretty_rows_text(apps@.take(i as int + 1)) =~= prev_rows.push(rowv));
            assert(rows.deep_view() == pretty_rows_text(apps@.take(i as int + 1)));
        }
        i += 1;
    }
    proof {
        assert(apps@.take(apps@.len() as int) =~= apps@);
    }
    render_table(&rows)
}

/// Renders the authorised apps in the chosen mode. Pretty mode is the
/// table with a title row, a header row and one row per app; parsable mode
/// is one tab-separated line per app with `[name:perm|perm,...]` as its
/// last field. Iteration order follows the input list.
pub fn format(apps: &Vec<AppRecord>, mode: ListMode) -> (out: String)
    ensures
        out@ == format_text(apps@, mode),
{
    match mode {
        ListMode::Pretty => format_pretty(apps),
        ListMode::Parsable => format_parsable(apps),
    }
}

/// Formatting is deterministic: any two renderings of the same list in the
/// same mode are byte-identical.
pub proof fn lemma_format_deterministic(
    apps: Seq<AppRecord>,
    mode: ListMode,
    r1: Seq<char>,
    r2: Seq<char>,
)
    requires
        r1 == format_text(apps, mode),
        r2 == format_text(apps, mode),
    ensures
        r1 == r2,
{
}

} // verus!
