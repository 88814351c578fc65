use safe_auth_cli::types::{AppIdentity, AppRecord, ContainerPerms, ListMode, PermissionSet};

fn s(x: &str) -> String {
    x.to_string()
}

fn perms(insert: bool, update: bool, delete: bool, manage_permissions: bool) -> PermissionSet {
    PermissionSet { insert, update, delete, manage_permissions }
}

fn record(id: &str, name: &str, vendor: &str, containers: Vec<ContainerPerms>) -> AppRecord {
    AppRecord {
        app: AppIdentity { id: s(id), name: s(name), vendor: s(vendor) },
        containers,
    }
}

#[test]
fn parsable_single_app_exact() {
    let apps = vec![record(
        "a1",
        "App",
        "V",
        vec![ContainerPerms { container: s("docs"), perms: perms(true, true, false, false) }],
    )];
    assert_eq!(safe_auth_cli::listing::format(&apps, ListMode::Parsable), "a1\tApp\tV\t[docs:Insert|Update]");
}

#[test]
fn parsable_joins_without_trailing_separators() {
    let apps = vec![
        record(
            "a1",
            "A",
            "V",
            vec![
                ContainerPerms { container: s("docs"), perms: perms(true, false, false, false) },
                ContainerPerms { container: s("photos"), perms: perms(false, false, true, false) },
            ],
        ),
        record("b2", "B", "W", vec![]),
    ];
    assert_eq!(
        safe_auth_cli::listing::format(&apps, ListMode::Parsable),
        "a1\tA\tV\t[docs:Insert,photos:Delete]\nb2\tB\tW\t[]"
    );
}

#[test]
fn parsable_permission_order_is_fixed() {
    let apps = vec![record(
        "a1",
        "A",
        "V",
        vec![ContainerPerms { container: s("docs"), perms: perms(true, true, true, true) }],
    )];
    assert_eq!(
        safe_auth_cli::listing::format(&apps, ListMode::Parsable),
        "a1\tA\tV\t[docs:Insert|Update|Delete|ManagePermissions]"
    );
}

#[test]
fn parsable_empty_list_is_empty() {
    let apps: Vec<AppRecord> = vec![];
    assert_eq!(safe_auth_cli::listing::format(&apps, ListMode::Parsable), "");
}

#[test]
fn pretty_lists_title_headers_and_rows() {
    let apps = vec![record(
        "a1",
        "App",
        "V",
        vec![ContainerPerms { container: s("docs"), perms: perms(true, true, false, false) }],
    )];
    let out = safe_auth_cli::listing::format(&apps, ListMode::Pretty);
    assert!(out.contains("Authorised Applications"));
    assert!(out.contains("Id"));
    assert!(out.contains("Name"));
    assert!(out.contains("Vendor"));
    assert!(out.contains("Permissions"));
    assert!(out.contains("a1"));
    assert!(out.contains("docs: [Insert, Update]"));
    assert!(out.contains("+"));
    assert!(out.contains("|"));
}

#[test]
fn format_twice_is_byte_identical() {
    let make = || {
        vec![
            record(
                "a1",
                "App",
                "V",
                vec![ContainerPerms {
                    container: s("docs"),
                    perms: perms(true, false, true, false),
                }],
            ),
            record("b2", "Other", "W", vec![]),
        ]
    };
    assert_eq!(
        safe_auth_cli::listing::format(&make(), ListMode::Parsable),
        safe_auth_cli::listing::format(&make(), ListMode::Parsable)
    );
    assert_eq!(safe_auth_cli::listing::format(&make(), ListMode::Pretty), safe_auth_cli::listing::format(&make(), ListMode::Pretty));
}
