use recipe_recommender_service::service::health::{liveness, readiness};
use recipe_recommender_service::service::home::{welcome_msg, welcome_msg_with_username};

#[test]
fn readiness_returns_ready_json() {
    let r = readiness();
    assert_eq!(r.status, 200);
    assert_eq!(r.body, "{\"ready\":true}");
}

#[test]
fn liveness_returns_live_json() {
    let r = liveness();
    assert_eq!(r.status, 200);
    assert_eq!(r.body, "{\"live\":true}");
}

#[test]
fn welcome_returns_fixed_message() {
    let r = welcome_msg();
    assert_eq!(r.status, 200);
    assert_eq!(r.body, "{\"message\":\"Hello, welcome to recipe-recommender-service\"}");
}

#[test]
fn welcome_with_name_interpolates() {
    let r = welcome_msg_with_username("Alice");
    assert_eq!(r.status, 200);
    assert_eq!(
        r.body,
        "{\"message\":\"Hello, Alice! Welcome to recipe-recommender-service\"}"
    );
}

#[test]
fn welcome_with_empty_name() {
    let r = welcome_msg_with_username("");
    assert_eq!(r.status, 200);
    assert_eq!(r.body, "{\"message\":\"Hello, ! Welcome to recipe-recommender-service\"}");
}

#[test]
fn welcome_name_is_not_escaped() {
    let r = welcome_msg_with_username("a\"b");
    assert_eq!(
        r.body,
        "{\"message\":\"Hello, a\"b! Welcome to recipe-recommender-service\"}"
    );
}

#[test]
fn health_bodies_parse_as_json() {
    let ready: serde_json::Value = serde_json::from_str(&readiness().body).unwrap();
    assert_eq!(ready.get("ready"), Some(&serde_json::Value::Bool(true)));
    let live: serde_json::Value = serde_json::from_str(&liveness().body).unwrap();
    assert_eq!(live.get("live"), Some(&serde_json::Value::Bool(true)));
}

#[test]
fn welcome_bodies_parse_as_json() {
    let root: serde_json::Value = serde_json::from_str(&welcome_msg().body).unwrap();
    assert_eq!(
        root.get("message").and_then(|m| m.as_str()),
        Some("Hello, welcome to recipe-recommender-service")
    );
    let named: serde_json::Value =
        serde_json::from_str(&welcome_msg_with_username("Alice").body).unwrap();
    assert_eq!(
        named.get("message").and_then(|m| m.as_str()),
        Some("Hello, Alice! Welcome to recipe-recommender-service")
    );
}
