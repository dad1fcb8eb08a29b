use bambu::error::DecodeError;
use bambu::types::mc_print::McPrintValue;

#[test]
fn parse_mc_params() {
    let tests = &[
        (
            "[AMS][Period]:(AMS0-S255)cmd_en=1;act_en=1;sta=0;sw=1-1-1-0;c_len=0.000m,cnt=0",
            McPrintValue::AmsPeriod,
        ),
        ("[AMS][TASK]ams num:1,ams_exist:0x1,tray_now: 255", McPrintValue::AmsTask),
        (
            "[AMS][TASK]tray_exist:0x7;tray_read_done:0x7,vailed:0x7,reading:0x0",
            McPrintValue::AmsTask,
        ),
        ("[AMS][TASK]ams0 temp:27.4;humidity:27%;humidity_idx:3", McPrintValue::AmsTask),
        ("[AMS][TASK]ams0 en=1,mode=0,sta=0", McPrintValue::AmsTask),
        (
            "[AMS][Period]:(AMS0-S255)cmd_en=1;act_en=1;sta=0;sw=1-1-1-0;c_len=0.000m,cnt=0",
            McPrintValue::AmsPeriod,
        ),
        (
            "[AMS][Period]:bldc_i=-0.00,u=0.00,spd=0.00;dw_spd=0.00;bdc_i=-0.00,u=0.00,spd=-0.00",
            McPrintValue::AmsPeriod,
        ),
        ("[BMC] z_t_cnt=119,p=0.373,rr=7.440,d=0.094,pos=234.7,272.7", McPrintValue::Bmc),
        ("[BMC] avr_rr=7.688645,avr_d_rr=0.501", McPrintValue::Bmc),
        (
            "[BMC] X231.0 Y236.0,z_c=      0.507      ,z_d=0.094",
            McPrintValue::BmcMeas { x: 231000, y: 236000, z_c: 507, z_d: 94 },
        ),
        ("[BMC] PX231.0 Y236.0,prev_z_c_diff=      -0.286      ", McPrintValue::Bmc),
    ];

    for (s, t) in tests {
        println!("Parsing: {s}, Expected: {t:?}");

        let t1 = McPrintValue::parse(s).unwrap();
        assert_eq!(&t1, t);
    }
}

#[test]
fn decoder_priority_scenarios() {
    assert_eq!(
        McPrintValue::parse("[AMS][Period]:(AMS0-S255)cmd_en=1;..."),
        Ok(McPrintValue::AmsPeriod)
    );
    assert_eq!(McPrintValue::parse("[AMS][TASK]ams num:1,..."), Ok(McPrintValue::AmsTask));
    assert_eq!(
        McPrintValue::parse("[BMC] X231.0 Y236.0,z_c=      0.507      ,z_d=0.094"),
        Ok(McPrintValue::BmcMeas { x: 231000, y: 236000, z_c: 507, z_d: 94 })
    );
    assert_eq!(McPrintValue::parse("[BMC] avr_rr=7.688645,avr_d_rr=0.501"), Ok(McPrintValue::Bmc));
    assert_eq!(
        McPrintValue::parse("anything else"),
        Ok(McPrintValue::Unknown("anything else".to_string()))
    );
}

#[test]
fn quotes_are_trimmed_once_on_each_side() {
    assert_eq!(
        McPrintValue::parse("\"[AMS][TASK]x\""),
        Ok(McPrintValue::AmsTask)
    );
    assert_eq!(
        McPrintValue::parse("\"\"hello\"\""),
        Ok(McPrintValue::Unknown("\"hello\"".to_string()))
    );
    assert_eq!(McPrintValue::parse(""), Ok(McPrintValue::Unknown(String::new())));
}

#[test]
fn negative_measurements_and_rounding() {
    assert_eq!(
        McPrintValue::parse("\"[BMC] X25.0 Y-3,z_c= 1 ,z_d=-0.0125\""),
        Ok(McPrintValue::Bmc)
    );
    assert_eq!(
        McPrintValue::parse("[BMC] X25.0 Y3,z_c= --1 ,z_d=0.5"),
        Err(DecodeError::InvalidNumber)
    );
    assert_eq!(
        McPrintValue::parse("[BMC] X25 Y3.,z_c= -0.2865 ,z_d=-0.0125"),
        Ok(McPrintValue::BmcMeas { x: 25000, y: 3000, z_c: -287, z_d: -13 })
    );
    assert_eq!(
        McPrintValue::parse("[BMC] X.5 Y0.25,z_c= 1.0004,z_d=7"),
        Ok(McPrintValue::BmcMeas { x: 500, y: 250, z_c: 1000, z_d: 7000 })
    );
}

#[test]
fn malformed_number_is_an_error() {
    assert_eq!(
        McPrintValue::parse("[BMC] X1.2.3 Y2.0,z_c= 0.5,z_d=0.1"),
        Err(DecodeError::InvalidNumber)
    );
    assert_eq!(
        McPrintValue::parse("[BMC] X. Y2.0,z_c= 0.5,z_d=0.1"),
        Err(DecodeError::InvalidNumber)
    );
    assert_eq!(
        McPrintValue::parse("[BMC] X99999999999999999999 Y2.0,z_c= 0.5,z_d=0.1"),
        Err(DecodeError::InvalidNumber)
    );
}

#[test]
fn measurement_found_after_other_text() {
    assert_eq!(
        McPrintValue::parse("[BMC]junk X1 Y2 X3.5 Y4.5,z_c= 0.1,z_d=0.2 trailing"),
        Ok(McPrintValue::BmcMeas { x: 3500, y: 4500, z_c: 100, z_d: 200 })
    );
    assert_eq!(McPrintValue::parse("[BMC] X1 Y2,z_c=0.1,z_d=0.2"), Ok(McPrintValue::Bmc));
    assert_eq!(McPrintValue::parse("X1 Y2,z_c= 0.1,z_d=0.2"), Ok(McPrintValue::Unknown(
        "X1 Y2,z_c= 0.1,z_d=0.2".to_string()
    )));
}

#[test]
fn is_bmc_meas_tells_measurements_apart() {
    assert!(McPrintValue::BmcMeas { x: 1, y: 2, z_c: 3, z_d: 4 }.is_bmc_meas());
    assert!(!McPrintValue::Bmc.is_bmc_meas());
    assert!(!McPrintValue::Unknown("x".to_string()).is_bmc_meas());
}
