use scarb_hints_run::error::{RunError, Stage};
use scarb_hints_run::loader::{load_program, load_service_configuration};
use scarb_hints_run::oracle::authorize_oracle_call;

const EMPTY_PROGRAM_V1: &str =
    r#"{"version":1,"type_declarations":[],"libfunc_declarations":[],"statements":[],"funcs":[]}"#;

#[test]
fn manifest_json_is_loaded() {
    let v = load_service_configuration("Oracle.lock", r#"{"shirts":{"color":"u32"}}"#).unwrap();
    assert_eq!(v["shirts"]["color"], serde_json::Value::String("u32".to_string()));
}

#[test]
fn malformed_manifest_is_a_deserialize_error() {
    let r = load_service_configuration("/p/Oracle.lock", "{not json");
    assert!(matches!(
        r,
        Err(RunError::Deserialize { stage: Stage::Manifest, ref path }) if path == "/p/Oracle.lock"
    ));
}

#[test]
fn manifest_round_trip() {
    let mut inner = serde_json::Map::new();
    inner.insert("request".to_string(), serde_json::Value::String("Request".to_string()));
    inner.insert("response".to_string(), serde_json::Value::String("Response".to_string()));
    let mut outer = serde_json::Map::new();
    outer.insert("sqrt".to_string(), serde_json::Value::Object(inner));
    outer.insert("count".to_string(), serde_json::Value::from(3u64));
    let original = serde_json::Value::Object(outer);
    let text = serde_json::to_string(&original).unwrap();
    let loaded = load_service_configuration("Oracle.lock", &text).unwrap();
    assert_eq!(loaded, original);
}

#[test]
fn program_of_supported_version_loads() {
    let p = load_program("t.sierra.json", EMPTY_PROGRAM_V1).unwrap();
    assert!(p.statements.is_empty());
    assert!(p.funcs.is_empty());
}

#[test]
fn unsupported_program_version_is_rejected() {
    let text = EMPTY_PROGRAM_V1.replace("\"version\":1", "\"version\":2");
    let r = load_program("/t/pkg.sierra.json", &text);
    assert!(matches!(
        r,
        Err(RunError::Deserialize { stage: Stage::ProgramEnvelope, ref path }) if path == "/t/pkg.sierra.json"
    ));
}

#[test]
fn malformed_program_is_rejected() {
    let r = load_program("x.sierra.json", "[]");
    assert!(matches!(r, Err(RunError::Deserialize { stage: Stage::ProgramEnvelope, .. })));
}

#[test]
fn declared_service_goes_to_endpoint() {
    let services = vec!["sqrt".to_string(), "shirts".to_string()];
    let endpoint = Some("http://127.0.0.1:3000".to_string());
    assert_eq!(
        authorize_oracle_call(&services, &endpoint, "shirts").unwrap(),
        "http://127.0.0.1:3000"
    );
}

#[test]
fn undeclared_service_is_unauthorized() {
    let services = vec!["sqrt".to_string()];
    let endpoint = Some("http://127.0.0.1:3000".to_string());
    let r = authorize_oracle_call(&services, &endpoint, "shirts");
    assert!(matches!(r, Err(RunError::UnauthorizedOracleCall { ref service }) if service == "shirts"));
    let r = authorize_oracle_call(&vec![], &None, "sqrt");
    assert!(matches!(r, Err(RunError::UnauthorizedOracleCall { .. })));
}

#[test]
fn declared_service_without_endpoint_fails() {
    let services = vec!["sqrt".to_string()];
    let r = authorize_oracle_call(&services, &None, "sqrt");
    assert!(matches!(r, Err(RunError::NoOracleEndpoint { ref service }) if service == "sqrt"));
}
