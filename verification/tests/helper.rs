use pulse::helper::{helper_action, helper_write_response, HelperAction, HelperRequest, HelperResponse};

#[test]
fn ping_is_answered_with_pong() {
    assert_eq!(
        helper_action(&HelperRequest::Ping),
        HelperAction::Respond(HelperResponse::Pong)
    );
}

#[test]
fn enable_state_writes_online_file() {
    assert_eq!(
        helper_action(&HelperRequest::SetCPUEnableState { cpu_num: 3, enabled: false }),
        HelperAction::WriteFile {
            path: "/sys/devices/system/cpu/cpu3/online".to_string(),
            contents: "0".to_string(),
        }
    );
    assert_eq!(
        helper_action(&HelperRequest::SetCPUEnableState { cpu_num: 15, enabled: true }),
        HelperAction::WriteFile {
            path: "/sys/devices/system/cpu/cpu15/online".to_string(),
            contents: "1".to_string(),
        }
    );
}

#[test]
fn write_outcome_response() {
    assert_eq!(helper_write_response(Ok(())), HelperResponse::Success);
    assert_eq!(
        helper_write_response(Err("Permission denied".to_string())),
        HelperResponse::Error("Permission denied".to_string())
    );
}

#[test]
fn written_state_reads_back() {
    for enabled in [false, true] {
        match helper_action(&HelperRequest::SetCPUEnableState { cpu_num: 1, enabled }) {
            HelperAction::WriteFile { contents, .. } => {
                assert_eq!(pulse::cpu::cpu_enable_state_from(Some(&contents)), enabled);
            }
            other => panic!("unexpected action {:?}", other),
        }
    }
}

#[test]
fn serving_a_run_of_lines() {
    // lines as parsed: None stands for a line that could not be read or parsed
    let lines = vec![
        Some(HelperRequest::Ping),
        None,
        Some(HelperRequest::SetCPUEnableState { cpu_num: 2, enabled: false }),
        Some(HelperRequest::SetCPUEnableState { cpu_num: 5, enabled: true }),
        None,
        Some(HelperRequest::Ping),
    ];
    let outcomes: Vec<Result<(), String>> =
        vec![Ok(()), Ok(()), Ok(()), Err("Permission denied".to_string()), Ok(()), Ok(())];
    let mut writes = Vec::new();
    let mut responses = Vec::new();
    for (line, outcome) in lines.iter().zip(outcomes.into_iter()) {
        if let Some(request) = line {
            match helper_action(request) {
                HelperAction::WriteFile { path, contents } => {
                    writes.push((path, contents));
                    responses.push(helper_write_response(outcome));
                }
                HelperAction::Respond(r) => responses.push(r),
            }
        }
    }
    assert_eq!(
        writes,
        vec![
            ("/sys/devices/system/cpu/cpu2/online".to_string(), "0".to_string()),
            ("/sys/devices/system/cpu/cpu5/online".to_string(), "1".to_string()),
        ]
    );
    assert_eq!(
        responses,
        vec![
            HelperResponse::Pong,
            HelperResponse::Success,
            HelperResponse::Error("Permission denied".to_string()),
            HelperResponse::Pong,
        ]
    );
}
