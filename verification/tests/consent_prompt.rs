use safe_auth_cli::consent::{decision_from_line, present, render_request, PromptIo};
use safe_auth_cli::types::{
    AppIdentity, AuthRequest, ContainerPerms, PermissionSet, ShareEntry,
};

fn s(x: &str) -> String {
    x.to_string()
}

fn io_with(line: &str) -> PromptIo {
    PromptIo::new(vec![s(line)])
}

fn ident() -> AppIdentity {
    AppIdentity { id: s("net.app.one"), name: s("One"), vendor: s("Acme") }
}

fn perms(insert: bool, update: bool, delete: bool, manage_permissions: bool) -> PermissionSet {
    PermissionSet { insert, update, delete, manage_permissions }
}

fn app_auth_request() -> AuthRequest {
    AuthRequest::ApplicationAuth {
        app: ident(),
        own_container: true,
        containers: vec![ContainerPerms {
            container: s("docs"),
            perms: perms(true, true, false, false),
        }],
    }
}

#[test]
fn unregistered_is_auto_granted_without_io() {
    let mut io = io_with("n\n");
    let allow = present(&AuthRequest::Unregistered, &mut io);
    assert!(allow);
    assert_eq!(io.cursor, 0);
    assert!(io.output.is_empty());
}

#[test]
fn data_sharing_phrase_names_exactly_the_granted_permissions() {
    let req = AuthRequest::DataSharing {
        app: ident(),
        entries: vec![ShareEntry {
            type_tag: 1,
            address: vec![0xaa; 32],
            perms: perms(true, false, true, false),
        }],
    };
    let mut io = io_with("y\n");
    let allow = present(&req, &mut io);
    assert!(allow);
    assert!(io.output.contains(" Insert"));
    assert!(io.output.contains(" Delete"));
    assert!(!io.output.contains(" Update"));
    assert!(!io.output.contains(" ManagePermissions"));
}

#[test]
fn upper_case_y_allows() {
    let mut io = io_with("Y\n");
    assert!(present(&app_auth_request(), &mut io));
}

#[test]
fn yes_denies() {
    let mut io = io_with("yes\n");
    assert!(!present(&app_auth_request(), &mut io));
}

#[test]
fn empty_line_denies() {
    let mut io = io_with("\n");
    assert!(!present(&app_auth_request(), &mut io));
}

#[test]
fn exhausted_input_denies() {
    let mut io = PromptIo::new(vec![]);
    assert!(!present(&app_auth_request(), &mut io));
}

#[test]
fn decision_normalises_line_endings() {
    assert!(decision_from_line("y\r\n"));
    assert!(decision_from_line("Y"));
    assert!(!decision_from_line("n\n"));
    assert!(!decision_from_line(""));
    assert!(!decision_from_line("yy\n"));
    assert!(!decision_from_line("y \n"));
}

#[test]
fn prompt_question_and_verdict_are_written() {
    let mut io = io_with("y\n");
    present(&app_auth_request(), &mut io);
    assert!(io.output.contains("Allow authorisation? [y/N]: "));
    assert!(io.output.ends_with("Authorisation will be allowed\n"));

    let mut io = io_with("q\n");
    present(&app_auth_request(), &mut io);
    assert!(io.output.ends_with("Authorisation will be denied\n"));
}

#[test]
fn app_auth_renders_identity_and_containers() {
    let mut io = io_with("n\n");
    present(&app_auth_request(), &mut io);
    assert!(io.output.starts_with(
        "The following application authorisation request was received:\n"
    ));
    assert!(io.output.contains("net.app.one"));
    assert!(io.output.contains("One"));
    assert!(io.output.contains("Acme"));
    assert!(io.output.contains("Own container: true"));
    assert!(io.output.contains("docs: [Insert, Update]"));
}

#[test]
fn container_request_renders_mapping() {
    let req = AuthRequest::ContainerAccess {
        app: ident(),
        containers: vec![
            ContainerPerms { container: s("photos"), perms: perms(false, false, true, true) },
            ContainerPerms { container: s("music"), perms: perms(true, false, false, false) },
        ],
    };
    let mut io = io_with("n\n");
    present(&req, &mut io);
    assert!(io.output.starts_with(
        "The following authorisation request for containers was received:\n"
    ));
    assert!(io.output.contains("photos: [Delete, ManagePermissions], music: [Insert]"));
}

#[test]
fn share_entry_renders_tag_and_hex_address() {
    let req = AuthRequest::DataSharing {
        app: ident(),
        entries: vec![ShareEntry {
            type_tag: 15001,
            address: vec![0xab, 0x01, 0xff],
            perms: perms(false, true, false, false),
        }],
    };
    let rendered = render_request(&req);
    assert!(rendered.contains("Type tag: 15001"));
    assert!(rendered.contains("XoR name: ab01ff"));
    assert!(rendered.contains("Permissions: Update"));
}
