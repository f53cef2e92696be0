use device_gateway::json_wrapper;
use device_gateway::json_wrapper::Member;
use device_gateway::polling;

fn member(key: &str, text: Option<&str>) -> Member {
    Member { key: key.to_string(), text: text.map(|t| t.to_string()) }
}

#[test]
fn json_wrapper_is_heartbeat_test() {
    let ok_str = r#"{"type": "ping","sn": "123"}"#;
    assert_eq!(json_wrapper::is_heartbeat(&ok_str.to_string()), Some("123".to_string()));
    let err_str = r#"{"type": "ping","what": "error"}"#;
    assert_ne!(json_wrapper::is_heartbeat(&err_str.to_string()), Some("123".to_string()));
}

#[test]
fn json_wrapper_parse_sn_test() {
    let ok_ping = r#"{"type": "ping","sn": "123"}"#;
    assert_eq!(json_wrapper::parse_sn(&ok_ping.to_string()), Some("123".to_string()));
    let ok_rawdata = r#"{"type": "rawdata","sn": "145623"}"#;
    assert_eq!(json_wrapper::parse_sn(&ok_rawdata.to_string()), Some("145623".to_string()));
    let err0_sn = r#"{"type": "rawdata","snfuck": "145623"}"#;
    assert_eq!(json_wrapper::parse_sn(&err0_sn.to_string()), None);
    let err1_sn = r#"{"what": "error"}"#;
    assert_eq!(json_wrapper::parse_sn(&err1_sn.to_string()), None);
    let err2_sn = r#"{"what": "err"#;
    assert_eq!(json_wrapper::parse_sn(&err2_sn.to_string()), None);
}

#[test]
fn json_wrapper_parse_msg_type_test() {
    let ok_ping = r#"{"type": "ping","sn": "123"}"#;
    assert_eq!(json_wrapper::parse_msg_type(&ok_ping.to_string()), json_wrapper::MESTYPE::HEARTBEAT);
    let ok_rawdata = r#"{"type": "rawdata","sn": "123"}"#;
    assert_eq!(json_wrapper::parse_msg_type(&ok_rawdata.to_string()), json_wrapper::MESTYPE::RAWDATA);
    let err1_rawdata = r#"{"what": "error"}"#;
    assert_eq!(json_wrapper::parse_msg_type(&err1_rawdata.to_string()), json_wrapper::MESTYPE::INVALID);
    let err2_rawdata = r#"{"what": "err"#;
    assert_eq!(json_wrapper::parse_msg_type(&err2_rawdata.to_string()), json_wrapper::MESTYPE::INVALID);
}

#[test]
fn connection_is_heartbeat_test() {
    let ok_str = r#"{"type": "ping","sn": "123"}"#;
    assert_eq!(polling::is_heartbeat(&ok_str.to_string()), Some("123".to_string()));
    let err_str = r#"{"type": "ping","what": "error"}"#;
    assert_ne!(polling::is_heartbeat(&err_str.to_string()), Some("123".to_string()));
}

#[test]
fn connection_parse_sn_test() {
    let ok_ping = r#"{"type": "ping","sn": "123"}"#;
    assert_eq!(polling::parse_sn(&ok_ping.to_string()), Some("123".to_string()));
    let ok_rawdata = r#"{"type": "rawdata","sn": "145623"}"#;
    assert_eq!(polling::parse_sn(&ok_rawdata.to_string()), Some("145623".to_string()));
    let err0_sn = r#"{"type": "rawdata","snfuck": "145623"}"#;
    assert_eq!(polling::parse_sn(&err0_sn.to_string()), None);
    let err1_sn = r#"{"what": "error"}"#;
    assert_eq!(polling::parse_sn(&err1_sn.to_string()), None);
    let err2_sn = r#"{"what": "err"#;
    assert_eq!(polling::parse_sn(&err2_sn.to_string()), None);
}

#[test]
fn connection_parse_msg_type_test() {
    let ok_ping = r#"{"type": "ping","sn": "123"}"#;
    assert_eq!(polling::parse_msg_type(&ok_ping.to_string()), polling::MESTYPE::HEARTBEAT);
    let ok_rawdata = r#"{"type": "rawdata","sn": "123"}"#;
    assert_eq!(polling::parse_msg_type(&ok_rawdata.to_string()), polling::MESTYPE::RAWDATA);
    let err1_rawdata = r#"{"what": "error"}"#;
    assert_eq!(polling::parse_msg_type(&err1_rawdata.to_string()), polling::MESTYPE::INVAILD);
    let err2_rawdata = r#"{"what": "err"#;
    assert_eq!(polling::parse_msg_type(&err2_rawdata.to_string()), polling::MESTYPE::INVAILD);
}

#[test]
fn acks_are_told_from_events() {
    let getack = r#"{"type":"getack","sn":"D1","v":7}"#.to_string();
    let setack = r#"{"type":"setack","sn":"D1"}"#.to_string();
    let other = r#"{"type":"ack","sn":"D1"}"#.to_string();
    assert_eq!(json_wrapper::is_ack(&getack), Some("D1".to_string()));
    assert_eq!(json_wrapper::is_ack(&setack), Some("D1".to_string()));
    assert_eq!(json_wrapper::is_ack(&other), None);
    assert_eq!(json_wrapper::parse_msg_type(&getack), json_wrapper::MESTYPE::ACK);
    assert_eq!(json_wrapper::parse_msg_type(&setack), json_wrapper::MESTYPE::ACK);
    assert_eq!(json_wrapper::parse_msg_type(&other), json_wrapper::MESTYPE::RAWDATA);
    assert_eq!(polling::parse_msg_type(&getack), polling::MESTYPE::RAWDATA);
}

#[test]
fn what_is_no_object_is_invalid() {
    for text in ["", "42", "\"ping\"", "[1,2]", "null", "true", "{", "{\"type\":\"ping\",\"sn\":\"1\"} x"] {
        let msg = text.to_string();
        assert_eq!(json_wrapper::parse_msg_type(&msg), json_wrapper::MESTYPE::INVALID);
        assert_eq!(polling::parse_msg_type(&msg), polling::MESTYPE::INVAILD);
        assert_eq!(json_wrapper::parse_sn(&msg), None);
        assert!(!json_wrapper::is_rawdata(&msg));
        assert!(!polling::is_rawdata(&msg));
    }
}

#[test]
fn members_that_are_no_strings_do_not_count() {
    let number_sn = r#"{"type":"ping","sn":123}"#.to_string();
    assert_eq!(json_wrapper::is_heartbeat(&number_sn), None);
    assert_eq!(json_wrapper::parse_sn(&number_sn), None);
    assert_eq!(json_wrapper::parse_msg_type(&number_sn), json_wrapper::MESTYPE::INVALID);
    assert_eq!(polling::parse_msg_type(&number_sn), polling::MESTYPE::RAWDATA);
    let number_type = r#"{"type":7,"sn":"D1"}"#.to_string();
    assert_eq!(json_wrapper::parse_msg_type(&number_type), json_wrapper::MESTYPE::INVALID);
    assert!(!json_wrapper::is_rawdata(&number_type));
    assert!(polling::is_rawdata(&number_type));
    assert_eq!(json_wrapper::parse_sn(&number_type), Some("D1".to_string()));
}

#[test]
fn an_event_keeps_its_other_members() {
    let event = r#"{"type":"evt","sn":"D1","payload":42}"#.to_string();
    assert_eq!(json_wrapper::parse_msg_type(&event), json_wrapper::MESTYPE::RAWDATA);
    assert!(json_wrapper::is_rawdata(&event));
    assert_eq!(json_wrapper::is_heartbeat(&event), None);
    assert_eq!(json_wrapper::parse_sn(&event), Some("D1".to_string()));
}

#[test]
fn parsing_does_not_hand_the_text_back() {
    let ping = r#"{"type": "ping","sn": "123"}"#.to_string();
    assert_ne!(json_wrapper::is_heartbeat(&ping), Some(ping.clone()));
    assert_ne!(json_wrapper::parse_sn(&ping), Some(ping.clone()));
}

#[test]
fn members_are_found_by_key() {
    let members = vec![
        member("payload", None),
        member("sn", Some("D9")),
        member("type", Some("ping")),
    ];
    assert_eq!(json_wrapper::find_member(&members, "payload"), Some(None));
    assert_eq!(json_wrapper::find_member(&members, "sn"), Some(Some("D9".to_string())));
    assert_eq!(json_wrapper::find_member(&members, "missing"), None);
    assert_eq!(json_wrapper::text_field(&members, "payload"), None);
    assert_eq!(json_wrapper::text_field(&members, "type"), Some("ping".to_string()));
    assert_eq!(json_wrapper::heartbeat_sn(&members), Some("D9".to_string()));
    assert_eq!(json_wrapper::ack_sn(&members), None);
    assert!(json_wrapper::is_event(&members));
    assert_eq!(json_wrapper::classify(&members), json_wrapper::MESTYPE::HEARTBEAT);
    assert_eq!(polling::classify(&members), polling::MESTYPE::HEARTBEAT);
}

#[test]
fn members_decide_the_kind() {
    let ack = vec![member("type", Some("setack")), member("sn", Some("A"))];
    assert_eq!(json_wrapper::classify(&ack), json_wrapper::MESTYPE::ACK);
    assert_eq!(json_wrapper::ack_sn(&ack), Some("A".to_string()));
    let event = vec![member("type", Some("evt")), member("sn", Some("A"))];
    assert_eq!(json_wrapper::classify(&event), json_wrapper::MESTYPE::RAWDATA);
    let no_sn = vec![member("type", Some("ping"))];
    assert_eq!(json_wrapper::classify(&no_sn), json_wrapper::MESTYPE::INVALID);
    assert_eq!(polling::classify(&no_sn), polling::MESTYPE::RAWDATA);
    assert!(polling::has_type(&no_sn));
    let empty: Vec<Member> = Vec::new();
    assert_eq!(json_wrapper::classify(&empty), json_wrapper::MESTYPE::INVALID);
    assert_eq!(polling::classify(&empty), polling::MESTYPE::INVAILD);
}
