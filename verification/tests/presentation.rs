use profile_og::errors::ServiceError;
use profile_og::present::{
    avatar_url, error_body, escape_json, html_profile_body, json_profile_body, render_record,
    wants_json,
};
use profile_og::record::ProfileRecord;

fn sample_record() -> ProfileRecord {
    ProfileRecord {
        id: "42".to_string(),
        display_name: Some("Alice A.".to_string()),
        username: "alice".to_string(),
        accent_color: Some("#123456".to_string()),
        avatar_ref: "deadbeef".to_string(),
        bio: "hello there".to_string(),
        captured_at: 7,
    }
}

#[test]
fn json_body_negotiated_username() {
    let rec = sample_record();
    let body = json_profile_body(&rec);
    let v: serde_json::Value = serde_json::from_str(&body).expect("the body is valid JSON");
    assert_eq!(
        v.get("status").and_then(|s| s.as_str()),
        Some("success")
    );
    let data = v.get("data").expect("a data object");
    assert_eq!(data.get("username").and_then(|s| s.as_str()), Some("alice"));
    assert_eq!(
        data.get("global_name").and_then(|s| s.as_str()),
        Some("Alice A.")
    );
    assert_eq!(data.get("bio").and_then(|s| s.as_str()), Some("hello there"));
    assert!(v.get("message").expect("a message field").is_null());
}

#[test]
fn json_body_exact_shape() {
    let rec = ProfileRecord {
        id: "1".to_string(),
        display_name: None,
        username: "u".to_string(),
        accent_color: None,
        avatar_ref: "a".to_string(),
        bio: "b".to_string(),
        captured_at: 0,
    };
    let body = json_profile_body(&rec);
    assert_eq!(
        body,
        "{\"status\":\"success\",\"data\":{\"global_name\":null,\"username\":\"u\",\
         \"banner_color\":null,\"avatar\":\"a\",\"bio\":\"b\"},\"message\":null}"
    );
}

#[test]
fn html_body_holds_avatar_url_and_bio() {
    let rec = sample_record();
    let body = html_profile_body(&rec, "42");
    let url = avatar_url("42", "deadbeef");
    assert_eq!(
        url,
        "https://cdn.discordapp.com/avatars/42/deadbeef?size=2048"
    );
    assert!(body.contains(url.as_str()));
    assert!(body.contains("hello there"));
    assert!(body.contains("content=\"Alice A.\""));
    assert!(body.contains("content=\"#123456\""));
    assert!(body.contains("https://discord.com/users/42"));
}

#[test]
fn html_body_falls_back_to_username_and_default_color() {
    let rec = ProfileRecord {
        display_name: None,
        accent_color: None,
        ..sample_record()
    };
    let body = html_profile_body(&rec, "42");
    assert!(body.contains("content=\"alice\""));
    assert!(body.contains("content=\"#2563eb\""));
}

#[test]
fn escaping_round_trips_through_a_json_parser() {
    let rec = ProfileRecord {
        bio: "say \"hi\"\\ \n\t\r\u{8}\u{c}\u{1}\u{1f} done".to_string(),
        ..sample_record()
    };
    let body = json_profile_body(&rec);
    let v: serde_json::Value = serde_json::from_str(&body).expect("escaped body parses");
    assert_eq!(
        v.get("data").and_then(|d| d.get("bio")).and_then(|b| b.as_str()),
        Some(rec.bio.as_str())
    );
}

#[test]
fn unicode_text_round_trips() {
    let rec = ProfileRecord {
        username: "ali\u{e7}e \u{1f600}".to_string(),
        bio: "sn\u{f6}w\u{2744}".to_string(),
        ..sample_record()
    };
    let body = json_profile_body(&rec);
    let v: serde_json::Value = serde_json::from_str(&body).expect("body parses");
    let data = v.get("data").expect("a data object");
    assert_eq!(
        data.get("username").and_then(|s| s.as_str()),
        Some(rec.username.as_str())
    );
    assert_eq!(data.get("bio").and_then(|s| s.as_str()), Some(rec.bio.as_str()));
}

#[test]
fn escape_json_exact() {
    assert_eq!(escape_json("a\"b\\c\nd\u{1}"), "a\\\"b\\\\c\\nd\\u0001");
}

#[test]
fn content_negotiation_signal() {
    assert!(wants_json(Some("application/json")));
    assert!(!wants_json(Some("text/html")));
    assert!(!wants_json(Some("application/JSON")));
    assert!(!wants_json(None));
}

#[test]
fn render_record_negotiates() {
    let rec = sample_record();
    let json = render_record(&rec, "42", true);
    assert!(serde_json::from_str::<serde_json::Value>(&json).is_ok());
    let html = render_record(&rec, "42", false);
    assert!(html.starts_with("<!DOCTYPE html>"));
}

#[test]
fn error_statuses_and_bodies() {
    let upstream = ServiceError::Upstream("boom".to_string());
    assert_eq!(upstream.status_code(), 500);
    assert_eq!(
        error_body(&upstream),
        "{\"status\":\"error\",\"message\":\"Internal Server Error, boom\"}"
    );

    let store_fault = ServiceError::Store("io".to_string());
    assert_eq!(store_fault.status_code(), 500);
    assert_eq!(
        error_body(&store_fault),
        "{\"status\":\"error\",\"message\":\"Database Error\"}"
    );

    let missing = ServiceError::MissingCredential;
    assert_eq!(missing.status_code(), 500);
    assert_eq!(
        error_body(&missing),
        "{\"status\":\"error\",\"message\":\"Missing environment variable\"}"
    );

    let not_found = ServiceError::NotFound("User not found".to_string());
    assert_eq!(not_found.status_code(), 404);
    assert_eq!(
        error_body(&not_found),
        "{\"status\":\"error\",\"message\":\"User not found\"}"
    );

    let payload = ServiceError::Payload("bad".to_string());
    assert_eq!(payload.status_code(), 500);
    assert_eq!(
        error_body(&payload),
        "{\"status\":\"error\",\"message\":\"Ser/De error: bad\"}"
    );
}
