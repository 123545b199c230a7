use rillrate::supervisor::{start_plan, termination_sequence, Group, RillRate, StartPlan};

/// The supervisor keeps the application name it was given.
#[test]
fn supervisor_keeps_app_name() {
    let supervisor = RillRate::new("example-app".to_string());
    assert_eq!(supervisor.app_name, "example-app");
}

/// Teardown runs tuning first and the hub last.
#[test]
fn termination_order() {
    let order = termination_sequence();
    assert_eq!(
        order,
        vec![Group::Tuning, Group::Exporter, Group::Provider, Group::Hub]
    );
}

/// A configured remote node selects the remote plan; otherwise the
/// embedded server is started.
#[test]
fn start_plan_follows_configuration() {
    assert_eq!(start_plan(true), StartPlan::RemoteNode);
    assert_eq!(start_plan(false), StartPlan::EmbeddedNode);
}
