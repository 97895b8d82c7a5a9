use maple::admin::{admin_action, AdminAction};

fn reply(a: AdminAction) -> String {
    match a {
        AdminAction::Reply(m) => m,
        _ => panic!("expected a reply"),
    }
}

#[test]
fn admin_define_agent() {
    match admin_action("define_agent AGENT bot tester runs the tests", "admin") {
        AdminAction::DefineAgent { id, role, description } => {
            assert_eq!(id, "bot");
            assert_eq!(role, "tester");
            assert_eq!(description, "runs the tests");
        }
        _ => panic!("expected define_agent"),
    }
    match admin_action("define_agent AGENT bot tester", "admin") {
        AdminAction::DefineAgent { description, .. } => assert_eq!(description, ""),
        _ => panic!("expected define_agent"),
    }
    assert_eq!(
        reply(admin_action("define_agent bot tester x", "admin")),
        "Syntax: define_agent AGENT <id> <role> <description>"
    );
}

#[test]
fn admin_only_commands_are_denied() {
    assert_eq!(reply(admin_action("define_agent AGENT bot tester x", "user")), "Permission denied: Admin only");
    assert_eq!(reply(admin_action("create_project p d", "user")), "Permission denied: Admin only");
    assert_eq!(reply(admin_action("create_project", "guest")), "Permission denied: Admin only");
}

#[test]
fn admin_create_project() {
    match admin_action("create_project Shop  an   online shop", "admin") {
        AdminAction::CreateProject { name, description } => {
            assert_eq!(name, "Shop");
            assert_eq!(description, "an online shop");
        }
        _ => panic!("expected create_project"),
    }
    assert_eq!(reply(admin_action("create_project Shop", "admin")), "Error: Name and description required");
}

#[test]
fn admin_switch_project() {
    assert!(matches!(admin_action("switch_project 42", "user"), AdminAction::SwitchProject(42)));
    assert!(matches!(admin_action("switch_project -7", "user"), AdminAction::SwitchProject(-7)));
    assert!(matches!(admin_action("switch_project +8", "user"), AdminAction::SwitchProject(8)));
    assert_eq!(reply(admin_action("switch_project x1", "user")), "Error: Invalid project ID");
    assert_eq!(reply(admin_action("switch_project 99999999999999999999", "user")), "Error: Invalid project ID");
    assert_eq!(reply(admin_action("switch_project", "user")), "Error: Project ID required");
}

#[test]
fn admin_read_only_and_packages() {
    assert!(matches!(admin_action("list_projects", "user"), AdminAction::ListProjects));
    match admin_action("import pkg.json", "user") {
        AdminAction::Import(p) => assert_eq!(p, "pkg.json"),
        _ => panic!("expected import"),
    }
    assert_eq!(reply(admin_action("import", "user")), "Error: Path required");
    match admin_action("export flow out.json EXEC a b", "user") {
        AdminAction::Export { name, path, workflow } => {
            assert_eq!(name, "flow");
            assert_eq!(path, "out.json");
            assert_eq!(workflow, vec!["EXEC".to_string(), "a".to_string(), "b".to_string()]);
        }
        _ => panic!("expected export"),
    }
    assert_eq!(reply(admin_action("export flow out.json", "user")), "Error: Name, path and workflow required");
}

#[test]
fn admin_ual_line() {
    match admin_action("ual EXEC deploy system_engineer region=us-east", "user") {
        AdminAction::Execute(stmt) => {
            assert_eq!(stmt.type_, "EXEC");
            assert_eq!(stmt.target, "deploy");
            assert_eq!(stmt.destination, "system_engineer");
            assert_eq!(stmt.params, vec![("region".to_string(), "us-east".to_string())]);
        }
        _ => panic!("expected a statement"),
    }
    assert_eq!(reply(admin_action("ual EXEC deploy", "user")), "Error: Invalid UAL: Too few parts");
}

#[test]
fn admin_unknown_command() {
    assert_eq!(reply(admin_action("launch rockets", "admin")), "Unknown command");
    assert_eq!(reply(admin_action("", "admin")), "Unknown command");
    assert_eq!(reply(admin_action("LIST_PROJECTS", "admin")), "Unknown command");
}
