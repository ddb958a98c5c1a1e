use vst_host::callbacks::{
    capability_supported, handle_host_request, host_info, HostCapability, HostRequest,
    HostResponse,
};

#[test]
fn host_identity_is_fixed() {
    let (version, vendor, product) = host_info();
    assert_eq!(version, 1);
    assert_eq!(vendor, "Mixlab");
    assert_eq!(product, "Mixlab");
}

#[test]
fn automation_reports_are_acknowledged() {
    let report = HostRequest::Automate { index: 3, value_bits: 0.75f32.to_bits() };
    let r = handle_host_request(&report);
    assert!(matches!(r, Ok(HostResponse::Acknowledged)));
}

#[test]
fn identity_query_is_answered() {
    let r = handle_host_request(&HostRequest::GetInfo);
    match r {
        Ok(HostResponse::Info { version, vendor, product }) => {
            assert_eq!(version, 1);
            assert_eq!(vendor, "Mixlab");
            assert_eq!(product, "Mixlab");
        }
        _ => panic!("identity query must succeed"),
    }
}

#[test]
fn unimplemented_capabilities_name_themselves() {
    let cases = [
        (HostRequest::GetPluginId, HostCapability::GetPluginId),
        (HostRequest::Idle, HostCapability::Idle),
        (HostRequest::ProcessEvents, HostCapability::ProcessEvents),
        (HostRequest::GetTimeInfo, HostCapability::GetTimeInfo),
        (HostRequest::GetBlockSize, HostCapability::GetBlockSize),
        (HostRequest::UpdateDisplay, HostCapability::UpdateDisplay),
    ];
    for (request, capability) in cases {
        let r = handle_host_request(&request);
        match r {
            Err(e) => assert_eq!(e.capability, capability),
            Ok(_) => panic!("an unimplemented capability must be fatal"),
        }
    }
}

#[test]
fn capability_table_lists_the_supported_set() {
    assert!(capability_supported(HostCapability::Automate));
    assert!(capability_supported(HostCapability::GetInfo));
    assert!(!capability_supported(HostCapability::GetPluginId));
    assert!(!capability_supported(HostCapability::Idle));
    assert!(!capability_supported(HostCapability::ProcessEvents));
    assert!(!capability_supported(HostCapability::GetTimeInfo));
    assert!(!capability_supported(HostCapability::GetBlockSize));
    assert!(!capability_supported(HostCapability::UpdateDisplay));
}
