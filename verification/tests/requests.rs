use pwnboard_rs::{LogLevel, Pwnboard};

fn board() -> Pwnboard {
    Pwnboard::new("https://board.test").unwrap_or_else(|_| panic!("valid URI"))
}

#[test]
fn log_with_level_example() {
    let req = board().log_request("10.0.0.5", "shell obtained", "ssh", Some(LogLevel::Loot));
    assert_eq!(req.url, "https://board.test/pwn/log");
    assert_eq!(
        req.body,
        "{\"ip\":\"10.0.0.5\",\"message\":\"shell obtained\",\"service\":\"ssh\",\"level\":\"loot\"}"
    );
}

#[test]
fn log_without_level() {
    let req = board().log_request("10.0.0.5", "scan done", "nmap", None);
    assert_eq!(req.body, "{\"ip\":\"10.0.0.5\",\"message\":\"scan done\",\"service\":\"nmap\"}");
}

#[test]
fn log_each_level_spelling() {
    let levels = [
        (LogLevel::Loot, "loot"),
        (LogLevel::Info, "info"),
        (LogLevel::Warn, "warn"),
        (LogLevel::Error, "error"),
    ];
    for (level, name) in levels {
        let req = board().log_request("10.0.0.5", "m", "s", Some(level));
        let expected = format!("{{\"ip\":\"10.0.0.5\",\"message\":\"m\",\"service\":\"s\",\"level\":\"{}\"}}", name);
        assert_eq!(req.body, expected);
    }
}

#[test]
fn credential_required_only_example() {
    let req = board().credential_request("10.0.0.5", "ftp", None, None, "hunter2");
    assert_eq!(req.url, "https://board.test/pwn/credential");
    assert_eq!(req.body, "{\"ip\":\"10.0.0.5\",\"service\":\"ftp\",\"password\":\"hunter2\"}");
}

#[test]
fn credential_all_fields() {
    let req = board().credential_request("10.0.0.5", "ftp", Some("from pcap"), Some("admin"), "hunter2");
    assert_eq!(
        req.body,
        "{\"ip\":\"10.0.0.5\",\"service\":\"ftp\",\"password\":\"hunter2\",\"message\":\"from pcap\",\"username\":\"admin\"}"
    );
}

#[test]
fn boxaccess_required_only() {
    let req = board().boxaccess_request("10.0.0.5", "implant", None, None, None);
    assert_eq!(req.url, "https://board.test/pwn/boxaccess");
    assert_eq!(req.body, "{\"ip\":\"10.0.0.5\",\"application\":\"implant\"}");
}

#[test]
fn boxaccess_all_fields() {
    let ips = ["10.0.0.5", "10.0.0.6"];
    let req = board().boxaccess_request(
        "10.0.0.5",
        "implant",
        Some(&ips),
        Some("ssh"),
        Some("persisted"),
    );
    assert_eq!(
        req.body,
        "{\"ip\":\"10.0.0.5\",\"application\":\"implant\",\"ips\":[\"10.0.0.5\",\"10.0.0.6\"],\"access_type\":\"ssh\",\"message\":\"persisted\"}"
    );
}

#[test]
fn boxaccess_empty_ips() {
    let ips: [&str; 0] = [];
    let req = board().boxaccess_request("10.0.0.5", "implant", Some(&ips), None, None);
    assert_eq!(req.body, "{\"ip\":\"10.0.0.5\",\"application\":\"implant\",\"ips\":[]}");
}

#[test]
fn boxaccess_single_ip() {
    let ips = ["10.0.0.7"];
    let req = board().boxaccess_request("10.0.0.5", "implant", Some(&ips), None, None);
    assert_eq!(req.body, "{\"ip\":\"10.0.0.5\",\"application\":\"implant\",\"ips\":[\"10.0.0.7\"]}");
}

#[test]
fn values_are_escaped() {
    let req = board().log_request("1.2.3.4", "say \"hi\"\\", "ssh", None);
    assert_eq!(
        req.body,
        "{\"ip\":\"1.2.3.4\",\"message\":\"say \\\"hi\\\"\\\\\",\"service\":\"ssh\"}"
    );
}

#[test]
fn control_characters_are_escaped() {
    let req = board().log_request("1.2.3.4", "line1\nline2", "ssh", None);
    assert_eq!(
        req.body,
        "{\"ip\":\"1.2.3.4\",\"message\":\"line1\\nline2\",\"service\":\"ssh\"}"
    );
}

#[test]
fn bodies_parse_back_with_exact_keys() {
    let req = board().boxaccess_request(
        "10.0.0.5",
        "implant",
        Some(&["10.0.0.6"]),
        None,
        Some("note"),
    );
    let v: serde_json::Value = serde_json::from_str(&req.body).unwrap();
    let obj = v.as_object().unwrap();
    assert_eq!(obj.len(), 4);
    assert_eq!(obj.get("ip").unwrap().as_str(), Some("10.0.0.5"));
    assert_eq!(obj.get("application").unwrap().as_str(), Some("implant"));
    assert_eq!(obj.get("message").unwrap().as_str(), Some("note"));
    let ips = obj.get("ips").unwrap().as_array().unwrap();
    assert_eq!(ips.len(), 1);
    assert_eq!(ips[0].as_str(), Some("10.0.0.6"));
    assert!(!obj.contains_key("access_type"));
}

#[test]
fn credential_none_keys_absent() {
    let req = board().credential_request("10.0.0.5", "ftp", None, None, "hunter2");
    let v: serde_json::Value = serde_json::from_str(&req.body).unwrap();
    let obj = v.as_object().unwrap();
    assert_eq!(obj.len(), 3);
    assert!(!obj.contains_key("message"));
    assert!(!obj.contains_key("username"));
}

#[test]
fn url_uses_given_base_uri() {
    let other = Pwnboard::new("http://10.1.1.1:8080").unwrap_or_else(|_| panic!("valid URI"));
    let req = other.log_request("a", "b", "c", None);
    assert_eq!(req.url, "http://10.1.1.1:8080/pwn/log");
}
