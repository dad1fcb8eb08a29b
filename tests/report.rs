use bambu::error::DecodeError;
use bambu::json::Json;
use bambu::level::diagnostic_params;
use bambu::types::report::{
    Ams, AmsInfo, InfoCommand, InfoValue, McPrintCommand, ModuleInfo, PrintCommand, PrintValue,
    Report, Tray, TrayInfo, UpgradeState,
};

fn convert(v: serde_json::Value) -> Json {
    match v {
        serde_json::Value::Null => Json::Null,
        serde_json::Value::Bool(b) => Json::Bool(b),
        serde_json::Value::Number(n) => Json::Number(n.to_string()),
        serde_json::Value::String(s) => Json::Str(s),
        serde_json::Value::Array(a) => Json::Array(a.into_iter().map(convert).collect()),
        serde_json::Value::Object(o) => {
            Json::Object(o.into_iter().map(|(k, v)| (k, convert(v))).collect())
        }
    }
}

fn parse(text: &str) -> Json {
    convert(serde_json::from_str(text).expect("test JSON is valid"))
}

/// Every member of `expected` is in `actual` with an equal value; numbers
/// compare by value.
fn includes(actual: &Json, expected: &Json) -> bool {
    match (actual, expected) {
        (Json::Number(a), Json::Number(b)) => {
            a.parse::<f64>().unwrap() == b.parse::<f64>().unwrap()
        }
        (Json::Array(a), Json::Array(b)) => {
            a.len() == b.len() && a.iter().zip(b.iter()).all(|(x, y)| includes(x, y))
        }
        (Json::Object(a), Json::Object(b)) => b.iter().all(|(k, v)| {
            a.iter().find(|(ka, _)| ka == k).map_or(false, |(_, va)| includes(va, v))
        }),
        (a, b) => a == b,
    }
}

/// Checks the encoding against the raw payload and the decoding against the
/// expected report.
fn test_report_serde(raw: Json, report: Report) {
    let converted = report.to_json();
    assert!(includes(&raw, &converted), "encoding {converted:?} not in {raw:?}");

    let decoded = Report::from_json(&raw).expect("failed to decode");
    assert_eq!(decoded, report);

    assert_eq!(Report::from_json(&converted), Ok(report));
}

#[test]
fn test_report_bed_temper() {
    let raw = parse(
        r#"{ "print": { "sequence_id":"1275", "bed_temper":20.0, "command":"push_status", "msg":1} }"#,
    );
    let report = Report::Print {
        sequence_id: "1275".to_string(),
        command: PrintCommand::PushStatus,
        value: PrintValue { bed_temper: Some(20000), ..Default::default() },
    };

    test_report_serde(raw, report);
}

#[test]
fn test_report_ams() {
    let raw = parse(
        r#"{
            "print": {
                "ams": {
                    "ams": [
                        {
                            "humidity": "3",
                            "id": "0",
                            "temp": "26.0",
                            "tray": [
                                {
                                    "bed_temp": "45",
                                    "bed_temp_type": "1",
                                    "cali_idx": -1,
                                    "cols": [
                                        "FF6A13FF"
                                    ],
                                    "ctype": 0,
                                    "drying_temp": "55",
                                    "drying_time": "8",
                                    "id": "0",
                                    "nozzle_temp_max": "230",
                                    "nozzle_temp_min": "190",
                                    "remain": 0,
                                    "tag_uid": "976622BA00000100",
                                    "tray_color": "FF6A13FF",
                                    "tray_diameter": "1.75",
                                    "tray_id_name": "A00-A0",
                                    "tray_info_idx": "GFA00",
                                    "tray_sub_brands": "PLA Basic",
                                    "tray_type": "PLA",
                                    "tray_uuid": "A5D66E2375254E10AA0414CB8E301B3C",
                                    "tray_weight": "250",
                                    "xcam_info": "8813100EE803E8039A99193F"
                                },
                                {
                                    "id": "3"
                                }
                            ]
                        }
                    ],
                    "version": 564
                },
                "command": "push_status",
                "msg": 1,
                "sequence_id": "1479"
            }
        }"#,
    );

    let report = Report::Print {
        sequence_id: "1479".to_string(),
        command: PrintCommand::PushStatus,
        value: PrintValue {
            ams: Some(Ams {
                ams: vec![AmsInfo {
                    humidity: "3".to_string(),
                    id: "0".to_string(),
                    temp: "26.0".to_string(),
                    tray: vec![
                        Tray {
                            id: "0".to_string(),
                            info: TrayInfo {
                                bed_temp: "45".to_string(),
                                bed_temp_type: "1".to_string(),
                                cali_idx: -1,
                                cols: vec!["FF6A13FF".to_string()],
                                ctype: 0,
                                drying_temp: "55".to_string(),
                                drying_time: "8".to_string(),
                                nozzle_temp_max: "230".to_string(),
                                nozzle_temp_min: "190".to_string(),
                                remain: 0,
                                tag_uid: "976622BA00000100".to_string(),
                                tray_color: "FF6A13FF".to_string(),
                                tray_diameter: "1.75".to_string(),
                                tray_id_name: "A00-A0".to_string(),
                                tray_info_idx: "GFA00".to_string(),
                                tray_sub_brands: "PLA Basic".to_string(),
                                tray_type: "PLA".to_string(),
                                tray_uuid: "A5D66E2375254E10AA0414CB8E301B3C".to_string(),
                                tray_weight: "250".to_string(),
                                xcam_info: "8813100EE803E8039A99193F".to_string(),
                            },
                        },
                        Tray { id: "3".to_string(), ..Default::default() },
                    ],
                }],
                version: 564,
            }),
            ..Default::default()
        },
    };

    test_report_serde(raw, report);
}

#[test]
fn test_report_upgrade_state() {
    let raw = parse(
        r#"{"print":{"command":"push_status","msg":1,"sequence_id":"65","upgrade_state":{"dis_state":1,"new_version_state":1,"ota_new_version_number":"01.06.01.00"}}}"#,
    );
    let report = Report::Print {
        command: PrintCommand::PushStatus,
        sequence_id: "65".to_string(),
        value: PrintValue {
            upgrade_state: Some(UpgradeState {
                dis_state: 1,
                new_version_state: 1,
                ota_new_version_number: "01.06.01.00".to_string(),
            }),
            ..Default::default()
        },
    };

    test_report_serde(raw, report);
}

#[test]
fn test_report_get_version() {
    let raw = parse(
        r#"{ "info": { "command": "get_version",
        "module": [
            {"hw_ver": "", "name": "ota", "sn": "", "sw_ver": "01.06.00.00"},
            {"hw_ver": "AMS08", "name": "ams/0", "sn": "00600A2C0503248", "sw_ver": "00.00.06.32"}
        ], "sequence_id": "20016" }}"#,
    );

    let report = Report::Info {
        command: InfoCommand::GetVersion,
        sequence_id: "20016".to_string(),
        value: InfoValue::Module(vec![
            ModuleInfo {
                name: "ota".to_string(),
                sw_ver: "01.06.00.00".to_string(),
                ..Default::default()
            },
            ModuleInfo {
                hw_ver: "AMS08".to_string(),
                name: "ams/0".to_string(),
                sn: "00600A2C0503248".to_string(),
                sw_ver: "00.00.06.32".to_string(),
            },
        ]),
    };

    test_report_serde(raw, report);
}

#[test]
fn test_report_status_all() {
    let raw = parse(
        r#"{"print":{"command":"push_status","cooling_fan_speed":"0","fan_gear":0,"msg":1,"nozzle_temper":70.0,"sequence_id":"188"}}"#,
    );
    let report = Report::Print {
        command: PrintCommand::PushStatus,
        sequence_id: "188".to_string(),
        value: PrintValue {
            cooling_fan_speed: Some("0".to_string()),
            fan_gear: Some(0),
            nozzle_temper: Some(70000),
            ..Default::default()
        },
    };

    test_report_serde(raw, report);
}

#[test]
fn test_report_status_nozzle_temp() {
    let raw = parse(
        r#"{"print":{"command":"push_status","msg":1,"nozzle_temper":85.0,"sequence_id":"190"}}"#,
    );
    let report = Report::Print {
        command: PrintCommand::PushStatus,
        sequence_id: "190".to_string(),
        value: PrintValue { nozzle_temper: Some(85000), ..Default::default() },
    };

    test_report_serde(raw, report);
}

#[test]
fn mc_print_report_round_trip_and_params() {
    let raw = parse(
        r#"{"mc_print":{"command":"push_info","sequence_id":"7","param":"[BMC] X1.0 Y2.0,z_c= 0.5,z_d=0.1","extra":true}}"#,
    );
    let report = Report::from_json(&raw).unwrap();
    assert_eq!(
        report,
        Report::McPrint {
            command: McPrintCommand::PushInfo,
            sequence_id: "7".to_string(),
            param: Json::Str("[BMC] X1.0 Y2.0,z_c= 0.5,z_d=0.1".to_string()),
        }
    );
    assert_eq!(Report::from_json(&report.to_json()), Ok(report));
}

#[test]
fn diagnostic_params_keep_mc_print_order() {
    let a = Report::from_json(&parse(r#"{"mc_print":{"command":"push_info","sequence_id":"1","param":"a"}}"#)).unwrap();
    let b = Report::from_json(&parse(r#"{"print":{"command":"push_status","sequence_id":"2"}}"#)).unwrap();
    let c = Report::from_json(&parse(r#"{"mc_print":{"command":"push_info","sequence_id":"3","param":[1]}}"#)).unwrap();
    let params = diagnostic_params(&vec![a, b, c]);
    assert_eq!(params, vec![Json::Str("a".to_string()), Json::Array(vec![Json::Number("1".to_string())])]);
}

#[test]
fn unknown_report_kinds_are_rejected() {
    assert_eq!(Report::from_json(&parse(r#"{"system":{"command":"x"}}"#)), Err(DecodeError::UnknownReport));
    assert_eq!(
        Report::from_json(&parse(r#"{"print":{"command":"push_status","sequence_id":"1"},"info":{}}"#)),
        Err(DecodeError::UnknownReport)
    );
    assert_eq!(Report::from_json(&parse(r#"[1,2]"#)), Err(DecodeError::UnknownReport));
}

#[test]
fn invalid_fields_are_rejected() {
    assert_eq!(
        Report::from_json(&parse(r#"{"print":{"command":"pause","sequence_id":"1"}}"#)),
        Err(DecodeError::InvalidField)
    );
    assert_eq!(
        Report::from_json(&parse(r#"{"print":{"command":"push_status"}}"#)),
        Err(DecodeError::InvalidField)
    );
    assert_eq!(
        Report::from_json(&parse(r#"{"print":{"command":"push_status","sequence_id":"1","version":-2}}"#)),
        Err(DecodeError::InvalidField)
    );
    assert_eq!(
        Report::from_json(&parse(r#"{"print":{"command":"push_status","sequence_id":"1","fan_gear":1.5}}"#)),
        Err(DecodeError::InvalidField)
    );
    assert_eq!(
        Report::from_json(&parse(r#"{"info":{"command":"get_version","sequence_id":"1"}}"#)),
        Err(DecodeError::InvalidField)
    );
    assert_eq!(
        Report::from_json(&parse(r#"{"mc_print":{"command":"push_info","sequence_id":"1"}}"#)),
        Err(DecodeError::InvalidField)
    );
}

#[test]
fn null_optional_members_read_as_absent() {
    let r = Report::from_json(&parse(
        r#"{"print":{"command":"push_status","sequence_id":"1","ams":null,"fan_gear":null,"bed_temper":-1.25,"version":3}}"#,
    ))
    .unwrap();
    assert_eq!(
        r,
        Report::Print {
            command: PrintCommand::PushStatus,
            sequence_id: "1".to_string(),
            value: PrintValue { bed_temper: Some(-1250), version: 3, ..Default::default() },
        }
    );
}

#[test]
fn encoded_numbers_are_decimal_text() {
    let report = Report::Print {
        command: PrintCommand::PushStatus,
        sequence_id: "9".to_string(),
        value: PrintValue {
            fan_gear: Some(-12),
            bed_temper: Some(20500),
            version: 42,
            ..Default::default()
        },
    };
    let expected = parse(
        r#"{"print":{"command":"push_status","sequence_id":"9","fan_gear":-12,"bed_temper":20.5,"version":42}}"#,
    );
    let j = report.to_json();
    assert!(includes(&expected, &j) && includes(&j, &expected));
    match &j {
        Json::Object(top) => match &top[0].1 {
            Json::Object(body) => {
                let texts: Vec<&Json> = body.iter().map(|(_, v)| v).collect();
                assert!(texts.contains(&&Json::Number("-12".to_string())));
                assert!(texts.contains(&&Json::Number("20.500".to_string())));
                assert!(texts.contains(&&Json::Number("42".to_string())));
            }
            _ => panic!("body is not an object"),
        },
        _ => panic!("report is not an object"),
    }
}
