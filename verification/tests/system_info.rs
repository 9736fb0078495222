use gateway_protocol::json::NumberValue;
use gateway_protocol::system_info::{SystemInfoParams, SystemInfoResult};

fn minimal_result(pid: i64) -> SystemInfoResult {
    SystemInfoResult {
        machine_name: "x".into(),
        hostname: "x".into(),
        platform: "x".into(),
        release: "x".into(),
        arch: "x".into(),
        os_label: "x".into(),
        lan_address: None,
        port: None,
        node_version: "x".into(),
        pid,
        uptime_ms: 0,
        cpu_count: 1,
        cpu_model: None,
        load_average: None,
        memory_total_bytes: 0,
        memory_free_bytes: 0,
        disk_total_bytes: None,
        disk_available_bytes: None,
        disk_path: None,
    }
}

#[test]
fn system_info_params_validates_ok() {
    assert!(SystemInfoParams {}.validate().is_ok());
}

#[test]
fn system_info_result_negative_pid_rejected() {
    let r = minimal_result(-1);
    let err = r.validate().unwrap_err();
    assert!(err.contains("pid"));
}

#[test]
fn system_info_result_negative_pid_message() {
    let err = minimal_result(-1).validate().unwrap_err();
    assert_eq!(err, "pid: expected integer >= 0, got -1");
}

#[test]
fn system_info_result_checks_port_then_disk() {
    let mut r = minimal_result(1);
    r.port = Some(-8);
    r.disk_available_bytes = Some(-2);
    assert_eq!(r.validate().unwrap_err(), "port: expected integer >= 0, got -8");
    r.port = Some(8788);
    assert_eq!(r.validate().unwrap_err(), "diskAvailableBytes: expected integer >= 0, got -2");
    r.disk_available_bytes = Some(0);
    r.load_average = Some([
        NumberValue { finite: true, is_nan: false, negative: false, text: "0.5".into() },
        NumberValue { finite: true, is_nan: false, negative: false, text: "1".into() },
        NumberValue { finite: true, is_nan: false, negative: false, text: "2.5".into() },
    ]);
    assert!(r.validate().is_ok());
}
