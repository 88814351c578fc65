//! The consent engine: renders a pending authorisation request on a prompt
//! surface and converts the operator's keyboard response into a binary
//! grant decision. The decision fails closed: anything but the single
//! letter y (either case) denies.

use vstd::prelude::*;

use crate::table::{render_table, table_text};
use crate::text::{append_bool, append_hex, append_u64, bool_text, dec_text, hex_text};
use crate::types::{
    append_container_entry, container_entry_text, AppIdentity, AuthRequest, ContainerPerms,
    PermissionSet, ShareEntry,
};

verus! {

/// A prompt surface as plain data: scripted input lines, a cursor, and
/// everything written so far. Tests script it; the program around the
/// library feeds it from the terminal.
pub struct PromptIo {
    pub input: Vec<String>,
    pub cursor: usize,
    pub output: String,
}

impl PromptIo {
    /// A fresh surface whose reads will yield `lines`, in order.
    pub fn new(lines: Vec<String>) -> (io: PromptIo)
        ensures
            io.input == lines,
            io.cursor == 0,
            io.output@ == Seq::<char>::empty(),
    {
        PromptIo { input: lines, cursor: 0, output: String::new() }
    }

    /// The raw line the next read yields: the scripted line at the cursor,
    /// or the empty line once the input is exhausted.
    pub open spec fn peek_line(self) -> Seq<char> {
        if self.cursor < self.input.len() {
            self.input.deep_view()[self.cursor as int]
        } else {
            Seq::empty()
        }
    }

    /// The cursor after one read.
    pub open spec fn cursor_after_read(self) -> int {
        if self.cursor < self.input.len() {
            self.cursor + 1
        } else {
            self.cursor as int
        }
    }

    /// Reads one raw line and advances; once the input is exhausted it
    /// yields the empty line, as a closed input stream would.
    pub fn read_line(&mut self) -> (line: String)
        ensures
            line@ == old(self).peek_line(),
            final(self).input == old(self).input,
            final(self).output == old(self).output,
            final(self).cursor == old(self).cursor_after_read(),
    {
        if self.cursor < self.input.len() {
            let line = self.input[self.cursor].clone();
            self.cursor = self.cursor + 1;
            line
        } else {
            String::new()
        }
    }

    /// Writes `s` to the output side of the surface.
    pub fn write_str(&mut self, s: &str)
        ensures
            final(self).output@ == old(self).output@ + s@,
            final(self).input == old(self).input,
            final(self).cursor == old(self).cursor,
    {
        self.output.append(s);
    }
}

/// `l` without one trailing newline, if it has one.
pub open spec fn strip_newline(l: Seq<char>) -> Seq<char> {
    if l.len() > 0 && l.last() == '\n' {
        l.drop_last()
    } else {
        l
    }
}

/// `l` without one trailing carriage return, if it has one.
pub open spec fn strip_return(l: Seq<char>) -> Seq<char> {
    if l.len() > 0 && l.last() == '\r' {
        l.drop_last()
    } else {
        l
    }
}

/// Whether a raw prompt line means "allow": after stripping one trailing
/// newline and then one carriage return, exactly the single letter y or Y
/// remains. Every other line - empty, `yes`, garbage - denies.
pub open spec fn accepts(l: Seq<char>) -> bool {
    let t = strip_return(strip_newline(l));
    t.len() == 1 && (t[0] == 'y' || t[0] == 'Y')
}

/// Decides one raw prompt line, failing closed on anything but y or Y.
pub fn decision_from_line(line: &str) -> (allow: bool)
    ensures
        allow == accepts(line@),
{
    let n: usize = line.unicode_len();
    let s1: &str = if n > 0 && line.get_char(n - 1) == '\n' {
        line.substring_char(0, n - 1)
    } else {
        line
    };
    proof {
        assert(s1@ =~= strip_newline(line@));
    }
    let n1: usize = s1.unicode_len();
    let s2: &str = if n1 > 0 && s1.get_char(n1 - 1) == '\r' {
        s1.substring_char(0, n1 - 1)
    } else {
        s1
    };
    proof {
        assert(s2@ =~= strip_return(strip_newline(line@)));
    }
    let n2: usize = s2.unicode_len();
    if n2 == 1 {
        let c: char = s2.get_char(0);
        c == 'y' || c == 'Y'
    } else {
        false
    }
}

/// The container entries of a request, comma-joined on one line.
pub open spec fn containers_line_text(cs: Seq<ContainerPerms>) -> Seq<char>
    decreases cs.len(),
{
    if cs.len() == 0 {
        Seq::empty()
    } else if cs.len() == 1 {
        container_entry_text(cs[0])
    } else {
        containers_line_text(cs.drop_last()) + ", "@ + container_entry_text(cs.last())
    }
}

fn append_containers_line(out: &mut String, cs: &Vec<ContainerPerms>)
    ensures
        final(out)@ == old(out)@ + containers_line_text(cs@),
{
    let mut i: usize = 0;
    while i < cs.len()
        invariant
            i <= cs.len(),
            out@ == old(out)@ + containers_line_text(cs@.take(i as int)),
        decreases cs.len() - i,
    {
        if i > 0 {
            out.append(", ");
        }
        append_container_entry(out, &cs[i]);
        proof {
            assert(cs@.take(i as int + 1).drop_last() =~= cs@.take(i as int));
            assert(cs@.take(i as int + 1).last() == cs@[i as int]);
            assert(out@ =~= old(out)@ + containers_line_text(cs@.take(i as int + 1)));
        }
        i += 1;
    }
    proof {
        assert(cs@.take(cs@.len() as int) =~= cs@);
    }
}

/// The space-prefixed phrase naming exactly the capabilities present in
/// `p`, in the fixed display order Insert, Update, Delete,
/// ManagePermissions.
pub open spec fn share_phrase_text(p: PermissionSet) -> Seq<char> {
    (if p.insert {
        " Insert"@
    } else {
        Seq::empty()
    }) + (if p.update {
        " Update"@
    } else {
        Seq::empty()
    }) + (if p.delete {
        " Delete"@
    } else {
        Seq::empty()
    }) + (if p.manage_permissions {
        " ManagePermissions"@
    } else {
        Seq::empty()
    })
}

fn append_share_phrase(out: &mut String, p: &PermissionSet)
    ensures
        final(out)@ == old(out)@ + share_phrase_text(*p),
{
    if p.insert {
        out.append(" Insert");
    }
    if p.update {
        out.append(" Update");
    }
    if p.delete {
        out.append(" Delete");
    }
    if p.manage_permissions {
        out.append(" ManagePermissions");
    }
    proof {
        assert(out@ =~= old(out)@ + share_phrase_text(*p));
    }
}

/// One data-sharing entry as rendered: its type tag, its address in
/// lowercase hex, and the phrase naming the requested permissions.
pub open spec fn share_entry_text(e: ShareEntry) -> Seq<char> {
    "Type tag: "@ + dec_text(e.type_tag as nat) + "\nXoR name: "@ + hex_text(e.address@)
        + "\nPermissions:"@ + share_phrase_text(e.perms) + "\n\n"@
}

/// All data-sharing entries rendered in order, no separator between them.
pub open spec fn share_list_text(es: Seq<ShareEntry>) -> Seq<char>
    decreases es.len(),
{
    if es.len() == 0 {
        Seq::empty()
    } else {
        share_list_text(es.drop_last()) + share_entry_text(es.last())
    }
}

fn append_share_list(out: &mut String, es: &Vec<ShareEntry>)
    ensures
        final(out)@ == old(out)@ + share_list_text(es@),
{
    let mut i: usize = 0;
    while i < es.len()
        invariant
            i <= es.len(),
            out@ == old(out)@ + share_list_text(es@.take(i as int)),
        decreases es.len() - i,
    {
        out.append("Type tag: ");
        append_u64(out, es[i].type_tag);
        out.append("\nXoR name: ");
        append_hex(out, &es[i].address);
        out.append("\nPermissions:");
        append_share_phrase(out, &es[i].perms);
        out.append("\n\n");
        proof {
            assert(es@.take(i as int + 1).drop_last() =~= es@.take(i as int));
            assert(es@.take(i as int + 1).last() == es@[i as int]);
            assert(out@ =~= old(out)@ + share_list_text(es@.take(i as int + 1)));
        }
        i += 1;
    }
    proof {
        assert(es@.take(es@.len() as int) =~= es@);
    }
}

/// The identity row headers shared by the rendered tables; the last column
/// header names what is being requested.
pub open spec fn header_row_text(last: Seq<char>) -> Seq<Seq<char>> {
    seq!["Id"@, "Name"@, "Vendor"@, last]
}

/// The two rows of a rendered request table: headers, then the requesting
/// app's identity and the summary cell.
pub open spec fn request_rows_text(app: AppIdentity, last_header: Seq<char>, cell: Seq<char>) -> Seq<
    Seq<Seq<char>>,
> {
    seq![header_row_text(last_header), seq![app.id@, app.name@, app.vendor@, cell]]
}

fn build_request_rows(app: &AppIdentity, last_header: &str, cell: &String) -> (rows: Vec<
    Vec<String>,
>)
    ensures
        rows.deep_view() == request_rows_text(*app, last_header@, cell@),
{
    let mut header: Vec<String> = Vec::new();
    header.push(String::from_str("Id"));
    header.push(String::from_str("Name"));
    header.push(String::from_str("Vendor"));
    header.push(String::from_str(last_header));
    let mut identity: Vec<String> = Vec::new();
    identity.push(app.id.clone());
    identity.push(app.name.clone());
    identity.push(app.vendor.clone());
    identity.push(cell.clone());
    let mut rows: Vec<Vec<String>> = Vec::new();
    rows.push(header);
    rows.push(identity);
    proof {
        assert(rows.deep_view()[0] =~= header_row_text(last_header@));
        assert(rows.deep_view()[1] =~= seq![app.id@, app.name@, app.vendor@, cell@]);
        assert(rows.deep_view() =~~= request_rows_text(*app, last_header@, cell@));
    }
    rows
}

/// The cell summarising an application-authorisation request: whether the
/// app wants its own container, and the named containers it requests.
pub open spec fn app_auth_cell_text(own_container: bool, cs: Seq<ContainerPerms>) -> Seq<char> {
    "Own container: "@ + bool_text(own_container) + "\nDefault containers: "@
        + containers_line_text(cs)
}

/// Exactly the text `present` writes before prompting, per request shape.
/// An unregistered request renders nothing.
pub open spec fn render_text(req: AuthRequest) -> Seq<char> {
    match req {
        AuthRequest::ApplicationAuth { app, own_container, containers } => {
            "The following application authorisation request was received:\n"@ + table_text(
                request_rows_text(
                    app,
                    "Permissions requested"@,
                    app_auth_cell_text(own_container, containers@),
                ),
            )
        },
        AuthRequest::ContainerAccess { app, containers } => {
            "The following authorisation request for containers was received:\n"@ + table_text(
                request_rows_text(app, "Permissions requested"@, containers_line_text(containers@)),
            )
        },
        AuthRequest::DataSharing { app, entries } => {
            "The following authorisation request to share a MutableData was received:\n"@
                + table_text(
                request_rows_text(
                    app,
                    "MutableData's requested to share"@,
                    share_list_text(entries@),
                ),
            )
        },
        AuthRequest::Unregistered => Seq::empty(),
    }
}

/// Renders the human-readable summary of a request: a line saying what was
/// received, then a table with the requesting identity and exactly what is
/// being asked for.
pub fn render_request(req: &AuthRequest) -> (out: String)
    ensures
        out@ == render_text(*req),
{
    match req {
        AuthRequest::ApplicationAuth { app, own_container, containers } => {
            let mut out = String::from_str(
                "The following application authorisation request was received:\n",
            );
            let mut cell = String::from_str("Own container: ");
            append_bool(&mut cell, *own_container);
            cell.append("\nDefault containers: ");
            append_containers_line(&mut cell, containers);
            let rows = build_request_rows(app, "Permissions requested", &cell);
            let table = render_table(&rows);
            out.append(table.as_str());
            proof {
                assert(cell@ =~= app_auth_cell_text(*own_container, containers@));
                assert(out@ =~= render_text(*req));
            }
            out
        },
        AuthRequest::ContainerAccess { app, containers } => {
            let mut out = String::from_str(
                "The following authorisation request for containers was received:\n",
            );
            let mut cell = String::new();
            append_containers_line(&mut cell, containers);
            let rows = build_request_rows(app, "Permissions requested", &cell);
            let table = render_table(&rows);
            out.append(table.as_str());
            proof {
                assert(out@ =~= render_text(*req));
            }
            out
        },
        AuthRequest::DataSharing { app, entries } => {
            let mut out = String::from_str(
                "The following authorisation request to share a MutableData was received:\n",
            );
            let mut cell = String::new();
            append_share_list(&mut cell, entries);
            let rows = build_request_rows(app, "MutableData's requested to share", &cell);
            let table = render_table(&rows);
            out.append(table.as_str());
            proof {
                assert(out@ =~= render_text(*req));
            }
            out
        },
        AuthRequest::Unregistered => {
            let out = String::new();
            proof {
                assert(out@ =~= render_text(*req));
            }
            out
        },
    }
}

/// The literal question asked before the decision, without a newline.
pub open spec fn prompt_text() -> Seq<char> {
    "Allow authorisation? [y/N]: "@
}

/// The confirmation line printed once the decision is made.
pub open spec fn verdict_text(allow: bool) -> Seq<char> {
    if allow {
        "Authorisation will be allowed\n"@
    } else {
        "Authorisation will be denied\n"@
    }
}

/// Presents one authorisation request on `io` and returns the operator's
/// decision. Unregistered requests are granted immediately, with no
/// rendering and no read. Every other shape is rendered, the operator is
/// asked once, and only the single letter y (either case) allows; any
/// other line denies, and the verdict is confirmed on the surface.
pub fn present(req: &AuthRequest, io: &mut PromptIo) -> (allow: bool)
    ensures
        req is Unregistered ==> allow == true && *final(io) == *old(io),
        !(req is Unregistered) ==> {
            &&& allow == accepts(old(io).peek_line())
            &&& final(io).input == old(io).input
            &&& final(io).cursor == old(io).cursor_after_read()
            &&& final(io).output@ == old(io).output@ + render_text(*req) + prompt_text()
                + verdict_text(allow)
        },
{
    match req {
        AuthRequest::Unregistered => true,
        AuthRequest::ApplicationAuth { .. } | AuthRequest::ContainerAccess { .. }
        | AuthRequest::DataSharing { .. } => {
            let rendered = render_request(req);
            io.write_str(rendered.as_str());
            io.write_str("Allow authorisation? [y/N]: ");
            let line = io.read_line();
            let allow = decision_from_line(line.as_str());
            if allow {
                io.write_str("Authorisation will be allowed\n");
            } else {
                io.write_str("Authorisation will be denied\n");
            }
            proof {
                assert(io.output@ =~= old(io).output@ + render_text(*req) + prompt_text()
                    + verdict_text(allow));
            }
            allow
        },
    }
}

} // verus!
