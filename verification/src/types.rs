//! The data model: application identities, permission sets, the four shapes
//! of authorisation request, authorised-app records, and the command-line
//! argument set that drives one run.

use vstd::prelude::*;

verus! {

/// Identity of an application as presented to the operator.
pub struct AppIdentity {
    pub id: String,
    pub name: String,
    pub vendor: String,
}

/// A subset of the fixed capability universe
/// Insert, Update, Delete, ManagePermissions. A capability whose
/// membership could not be evaluated upstream is recorded as absent here:
/// rendering a security prompt must fail closed, never abort.
#[derive(Clone, Copy, PartialEq, Eq, Structural)]
pub struct PermissionSet {
    pub insert: bool,
    pub update: bool,
    pub delete: bool,
    pub manage_permissions: bool,
}

/// A named container together with the permissions requested or granted on
/// it.
pub struct ContainerPerms {
    pub container: String,
    pub perms: PermissionSet,
}

/// One entry of a data-sharing request: a numeric type tag, the address of
/// the shared datum, and the permissions requested on it.
pub struct ShareEntry {
    pub type_tag: u64,
    pub address: Vec<u8>,
    pub perms: PermissionSet,
}

/// A decoded authorisation request: a closed union of the four shapes the
/// backend can hand over. Adding a shape is a compile-time-visible change.
pub enum AuthRequest {
    ApplicationAuth { app: AppIdentity, own_container: bool, containers: Vec<ContainerPerms> },
    ContainerAccess { app: AppIdentity, containers: Vec<ContainerPerms> },
    DataSharing { app: AppIdentity, entries: Vec<ShareEntry> },
    Unregistered,
}

/// An already-authorised application: identity plus the granted container
/// permissions, kept in the order the backend handed them out.
pub struct AppRecord {
    pub app: AppIdentity,
    pub containers: Vec<ContainerPerms>,
}

/// Output mode for the authorised-app listing.
pub enum ListMode {
    Pretty,
    Parsable,
}

/// The command-line arguments that drive one run of the tool.
pub struct CmdArgs {
    pub config_file_str: Option<String>,
    pub req_str: Option<String>,
    pub invite: Option<String>,
    pub balance: bool,
    pub apps: bool,
    pub app_id: Option<String>,
    pub pretty: bool,
    pub port: Option<u16>,
}

/// `sep` if an earlier list element exists, nothing otherwise.
pub open spec fn sep_if(earlier: bool, sep: Seq<char>) -> Seq<char> {
    if earlier {
        sep
    } else {
        Seq::empty()
    }
}

/// The names of the capabilities present in `p`, in the fixed display order
/// Insert, Update, Delete, ManagePermissions, joined by `sep` with no
/// leading or trailing separator.
pub open spec fn perm_list_text(p: PermissionSet, sep: Seq<char>) -> Seq<char> {
    (if p.insert {
        "Insert"@
    } else {
        Seq::empty()
    }) + (if p.update {
        sep_if(p.insert, sep) + "Update"@
    } else {
        Seq::empty()
    }) + (if p.delete {
        sep_if(p.insert || p.update, sep) + "Delete"@
    } else {
        Seq::empty()
    }) + (if p.manage_permissions {
        sep_if(p.insert || p.update || p.delete, sep) + "ManagePermissions"@
    } else {
        Seq::empty()
    })
}

/// Appends the capability names of `p`, display order, `sep`-joined.
pub fn append_perm_list(out: &mut String, p: &PermissionSet, sep: &str)
    ensures
        final(out)@ == old(out)@ + perm_list_text(*p, sep@),
{
    let mut earlier: bool = false;
    if p.insert {
        out.append("Insert");
        earlier = true;
    }
    if p.update {
        if earlier {
            out.append(sep);
        }
        out.append("Update");
        earlier = true;
    }
    if p.delete {
        if earlier {
            out.append(sep);
        }
        out.append("Delete");
        earlier = true;
    }
    if p.manage_permissions {
        if earlier {
            out.append(sep);
        }
        out.append("ManagePermissions");
    }
    proof {
        assert(out@ =~= old(out)@ + perm_list_text(*p, sep@));
    }
}

/// One container entry as rendered for the operator:
/// `name: [Insert, Update]`.
pub open spec fn container_entry_text(c: ContainerPerms) -> Seq<char> {
    c.container@ + ": ["@ + perm_list_text(c.perms, ", "@) + "]"@
}

/// Appends one rendered container entry to `out`.
pub fn append_container_entry(out: &mut String, c: &ContainerPerms)
    ensures
        final(out)@ == old(out)@ + container_entry_text(*c),
{
    out.append(c.container.as_str());
    out.append(": [");
    append_perm_list(out, &c.perms, ", ");
    out.append("]");
    proof {
        assert(out@ =~= old(out)@ + container_entry_text(*c));
    }
}

} // verus!
