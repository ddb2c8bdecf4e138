//! Module construction: the full success path, and every way construction
//! aborts.

use synapse_module_bridge::config::{Config, ConfigError, DecodeFailure};
use synapse_module_bridge::construction::{BuildAction, BuildEvent, ModuleBuilder, ModuleError};

#[test]
fn successful_construction_registers_once_under_configured_path() {
    let mut b = ModuleBuilder::new();
    let a1 = b.on_event(BuildEvent::HandleChecked(true));
    assert_eq!(a1, BuildAction::Canonicalize);
    let a2 = b.on_event(BuildEvent::Canonicalized("{\"path\": \"/x\"}".to_string()));
    assert_eq!(a2, BuildAction::Decode("{\"path\": \"/x\"}".to_string()));
    let a3 = b.on_event(BuildEvent::ConfigDecoded(Config {
        path: "/x".to_string(),
    }));
    assert_eq!(a3, BuildAction::Register("/x".to_string()));
    let a4 = b.on_event(BuildEvent::Registered);
    assert_eq!(a4, BuildAction::Finish);
}

#[test]
fn foreign_object_aborts_with_invalid_handle() {
    let mut b = ModuleBuilder::new();
    let act = b.on_event(BuildEvent::HandleChecked(false));
    assert_eq!(
        act,
        BuildAction::Abort(ModuleError::InvalidHandle(
            "Object is not a synapse.module_api.ModuleApi".to_string()
        ))
    );
}

#[test]
fn foreign_object_never_reaches_registration() {
    let mut b = ModuleBuilder::new();
    b.on_event(BuildEvent::HandleChecked(false));
    // Whatever comes later, the failed builder requests nothing more.
    let a1 = b.on_event(BuildEvent::Canonicalized("{}".to_string()));
    let a2 = b.on_event(BuildEvent::ConfigDecoded(Config {
        path: "/x".to_string(),
    }));
    let a3 = b.on_event(BuildEvent::Registered);
    assert_eq!(a1, BuildAction::Ignore);
    assert_eq!(a2, BuildAction::Ignore);
    assert_eq!(a3, BuildAction::Ignore);
}

#[test]
fn failed_instance_check_aborts_with_host_error() {
    let mut b = ModuleBuilder::new();
    let act = b.on_event(BuildEvent::HandleCheckFailed("no such module".to_string()));
    assert_eq!(
        act,
        BuildAction::Abort(ModuleError::HostCall("no such module".to_string()))
    );
}

#[test]
fn failed_canonicalization_aborts_with_host_error() {
    let mut b = ModuleBuilder::new();
    b.on_event(BuildEvent::HandleChecked(true));
    let act = b.on_event(BuildEvent::CanonicalizeFailed(
        "object is not serializable".to_string(),
    ));
    assert_eq!(
        act,
        BuildAction::Abort(ModuleError::HostCall(
            "object is not serializable".to_string()
        ))
    );
}

#[test]
fn rejected_configuration_aborts_with_structured_error() {
    let mut b = ModuleBuilder::new();
    b.on_event(BuildEvent::HandleChecked(true));
    b.on_event(BuildEvent::Canonicalized("{}".to_string()));
    let act = b.on_event(BuildEvent::ConfigRejected(DecodeFailure {
        path_text: "path".to_string(),
        raw_message: "missing field `path` at line 1 column 2".to_string(),
    }));
    assert_eq!(
        act,
        BuildAction::Abort(ModuleError::Config(ConfigError {
            message: "missing field `path`".to_string(),
            path: vec!["path".to_string()],
        }))
    );
}

#[test]
fn rejected_registration_aborts_with_registration_error() {
    let mut b = ModuleBuilder::new();
    b.on_event(BuildEvent::HandleChecked(true));
    b.on_event(BuildEvent::Canonicalized("{\"path\": \"/x\"}".to_string()));
    b.on_event(BuildEvent::ConfigDecoded(Config {
        path: "/x".to_string(),
    }));
    let act = b.on_event(BuildEvent::RegisterFailed("path already taken".to_string()));
    assert_eq!(
        act,
        BuildAction::Abort(ModuleError::Registration("path already taken".to_string()))
    );
}
