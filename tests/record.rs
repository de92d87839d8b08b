use login_flow::profile::{profile_record, UserProfile};
use login_flow::remote::RemoteError;

fn sample(id: i64, name: &str) -> UserProfile {
    UserProfile {
        id,
        user_type: String::from("admin"),
        email: String::from("a@b.com"),
        name: String::from(name),
        mobile: String::from("555-0100"),
        laston: String::from("2024-01-02"),
        created_at: String::from("2023-01-01"),
        updated_at: String::from("2023-06-01"),
        expire_at: String::from("2025-01-01"),
    }
}

#[test]
fn record_has_exact_layout() {
    let r = profile_record(&sample(1, "Ann"));
    assert_eq!(
        r,
        "{\"id\":1,\"type\":\"admin\",\"email\":\"a@b.com\",\"name\":\"Ann\",\"mobile\":\"555-0100\",\"laston\":\"2024-01-02\",\"created_at\":\"2023-01-01\",\"updated_at\":\"2023-06-01\",\"expire_at\":\"2025-01-01\"}"
    );
}

#[test]
fn record_escapes_strings_and_writes_signed_ids() {
    let r = profile_record(&sample(-1205, "A \"q\" \\ b"));
    assert!(r.starts_with("{\"id\":-1205,"));
    assert!(r.contains("\"name\":\"A \\\"q\\\" \\\\ b\""));
    let r = profile_record(&sample(i64::MIN, "x"));
    assert!(r.starts_with("{\"id\":-9223372036854775808,"));
    let r = profile_record(&sample(i64::MAX, "x"));
    assert!(r.starts_with("{\"id\":9223372036854775807,"));
}

#[test]
fn record_reads_back_equal() {
    let p = sample(42, "Zoë \"Z\" Lee\n");
    let r = profile_record(&p);
    let v: serde_json::Value = serde_json::from_str(&r).unwrap();
    assert_eq!(v["id"].as_i64(), Some(p.id));
    assert_eq!(v["type"].as_str(), Some(p.user_type.as_str()));
    assert_eq!(v["email"].as_str(), Some(p.email.as_str()));
    assert_eq!(v["name"].as_str(), Some(p.name.as_str()));
    assert_eq!(v["mobile"].as_str(), Some(p.mobile.as_str()));
    assert_eq!(v["laston"].as_str(), Some(p.laston.as_str()));
    assert_eq!(v["created_at"].as_str(), Some(p.created_at.as_str()));
    assert_eq!(v["updated_at"].as_str(), Some(p.updated_at.as_str()));
    assert_eq!(v["expire_at"].as_str(), Some(p.expire_at.as_str()));
    assert_eq!(v.as_object().map(|o| o.len()), Some(9));
}

#[test]
fn remote_reasons() {
    assert_eq!(RemoteError::ServerRejected(String::from("bad")).reason(), "bad");
    assert_eq!(RemoteError::Unexpected(String::from("<html>")).reason(), "<html>");
    assert_eq!(RemoteError::Network.reason(), "network error");
}
