use maple::package::{default_software_factory, execute_package, MaplePackage, PackageManager};
use maple::registry::{AgentRegistry, AgentRole, MapleAgent, RoutingError, SimpleAgent};
use maple::ual::parse_ual;

fn enterprise_registry() -> AgentRegistry<AgentRole> {
    let mut r = AgentRegistry::new();
    r.register("agent1".to_string(), AgentRole::Generic);
    r.register("system_coordinator".to_string(), AgentRole::SystemCoordinator);
    r.register("product_manager".to_string(), AgentRole::ProductManager);
    r.register("architect".to_string(), AgentRole::Architect);
    r.register("project_manager".to_string(), AgentRole::ProjectManager);
    r.register("system_engineer".to_string(), AgentRole::SystemEngineer);
    r.register("app_developer".to_string(), AgentRole::AppDeveloper);
    r.register("qa_engineer".to_string(), AgentRole::QaEngineer);
    r
}

#[test]
fn execute_unregistered_is_not_found() {
    let r = enterprise_registry();
    let stmt = parse_ual("EXEC build_app nobody features=auth,tasks").unwrap();
    let mut log = vec!["earlier".to_string()];
    let e = r.execute(&stmt, &mut log).unwrap_err();
    assert_eq!(e, RoutingError::AgentNotFound("nobody".to_string()));
    assert_eq!(e.message(), "Agent 'nobody' not found");
    assert_eq!(log, vec!["earlier".to_string()]);
}

#[test]
fn execute_registered_writes_one_row() {
    let r = enterprise_registry();
    let stmt = parse_ual("EXEC build_app app_developer features=auth,tasks").unwrap();
    let mut log = Vec::new();
    r.execute(&stmt, &mut log).unwrap();
    assert_eq!(log, vec!["app_developer: EXEC build_app".to_string()]);
    r.execute(&stmt, &mut log).unwrap();
    assert_eq!(log.len(), 2);
}

#[test]
fn execute_generic_agent_writes_nothing() {
    let r = enterprise_registry();
    let stmt = parse_ual("EXEC task1 agent1 priority=5").unwrap();
    let mut log = Vec::new();
    assert!(r.execute(&stmt, &mut log).is_ok());
    assert!(log.is_empty());
}

#[test]
fn register_replaces_earlier_agent() {
    let mut r = AgentRegistry::new();
    r.register("x".to_string(), AgentRole::Architect);
    r.register("x".to_string(), AgentRole::QaEngineer);
    assert!(r.contains(&"x".to_string()));
    assert!(!r.contains(&"y".to_string()));
    let stmt = parse_ual("EXEC t x").unwrap();
    let mut log = Vec::new();
    r.execute(&stmt, &mut log).unwrap();
    assert_eq!(log, vec!["qa_engineer: EXEC t".to_string()]);
}

#[test]
fn simple_agent_accepts() {
    let mut r = AgentRegistry::new();
    r.register("agent1".to_string(), SimpleAgent);
    let stmt = parse_ual("EXEC t agent1").unwrap();
    let mut log = Vec::new();
    assert!(r.execute(&stmt, &mut log).is_ok());
    assert!(SimpleAgent.execute(&stmt, &mut log).is_ok());
    assert!(log.is_empty());
}

#[test]
fn package_continues_after_bad_line() {
    let r = enterprise_registry();
    let pkg = MaplePackage {
        name: "p".to_string(),
        description: "d".to_string(),
        workflow: vec![
            "EXEC plan project_manager".to_string(),
            "EXEC".to_string(),
            "EXEC test_app qa_engineer".to_string(),
            "EXEC x ghost".to_string(),
            "EXEC release system_engineer marketing=enabled".to_string(),
        ],
    };
    let mut log = Vec::new();
    let out = execute_package(&r, &pkg, &mut log);
    assert_eq!(out.len(), 5);
    assert_eq!(out[0], Ok(()));
    assert_eq!(out[1], Err("Invalid UAL: Too few parts".to_string()));
    assert_eq!(out[2], Ok(()));
    assert_eq!(out[3], Err("Agent 'ghost' not found".to_string()));
    assert_eq!(out[4], Ok(()));
    assert_eq!(
        log,
        vec![
            "project_manager: EXEC plan".to_string(),
            "qa_engineer: EXEC test_app".to_string(),
            "system_engineer: EXEC release".to_string(),
        ]
    );
}

#[test]
fn default_factory_runs_every_line() {
    let r = enterprise_registry();
    let pkg = default_software_factory();
    assert_eq!(pkg.name, "software_factory");
    assert_eq!(pkg.workflow.len(), 7);
    let mut log = Vec::new();
    let out = execute_package(&r, &pkg, &mut log);
    assert!(out.iter().all(|o| o.is_ok()));
    assert_eq!(log.len(), 7);
    assert_eq!(log[1], "architect: EXEC requirements");
}

#[test]
fn package_manager_get_first_by_name() {
    let mut m = PackageManager::new();
    assert!(m.get("software_factory").is_none());
    m.add_package(default_software_factory());
    let mut other = default_software_factory();
    other.description = "second".to_string();
    m.add_package(other);
    let p = m.get("software_factory").unwrap();
    assert_eq!(p.description, "Software Factory workflow for MAPLE");
    assert!(m.get("missing").is_none());
}
