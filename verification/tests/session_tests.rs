use libvirt_node::machine::Machine;
use libvirt_node::session::{
    control_outcome, define_xml_outcome, domain_info_report, power_off_action, Libvirt,
    LibvirtError, PowerAction,
};

#[test]
fn connect_adopts_handle() {
    let mut lv = Libvirt::new();
    assert!(lv.connect_needed());
    let r = lv.connect("qemu:///system".to_string(), Some(Ok(7)));
    assert!(r.is_ok());
    assert_eq!(lv.connection, Some(7));
    assert_eq!(lv.conn, Some("qemu:///system".to_string()));
}

#[test]
fn connect_is_idempotent_when_open() {
    // opening again creates no second handle and raises no error
    let mut lv = Libvirt::new();
    lv.connect("qemu:///system".to_string(), Some(Ok(7))).unwrap();
    assert!(!lv.connect_needed());
    let r = lv.connect("qemu:///other".to_string(), None);
    assert!(r.is_ok());
    assert_eq!(lv.connection, Some(7));
    assert_eq!(lv.conn, Some("qemu:///system".to_string()));
}

#[test]
fn connect_reports_driver_failure() {
    let mut lv = Libvirt::new();
    let r = lv.connect("qemu:///system".to_string(), Some(Err("boom".to_string())));
    match r {
        Err(e) => assert_eq!(e.message(), "Failed to connect: boom"),
        Ok(()) => panic!("connect should have failed"),
    }
    assert_eq!(lv.connection, None);
}

#[test]
fn disconnect_is_noop_when_closed() {
    // dropping a connection that was never opened is no failure
    let mut lv = Libvirt::new();
    assert_eq!(lv.disconnect(), None);
    lv.connect("test:///default".to_string(), Some(Ok(3))).unwrap();
    assert_eq!(lv.disconnect(), Some(3));
    // and a second disconnect is again a plain no-op
    assert_eq!(lv.disconnect(), None);
    assert_eq!(lv.connection, None);
}

#[test]
fn get_connection_names_each_failure() {
    let mut lv = Libvirt::new();
    match lv.get_connection(true) {
        Err(e) => assert_eq!(e.message(), "Connection not opened"),
        Ok(_) => panic!("no connection should be reported"),
    }
    lv.connect("test:///default".to_string(), Some(Ok(3))).unwrap();
    match lv.get_connection(false) {
        Err(e) => assert_eq!(e.message(), "Connection is not alive"),
        Ok(_) => panic!("dead connection should be reported"),
    }
    assert_eq!(lv.get_connection(true).ok(), Some(3));
}

#[test]
fn list_domains_passes_list_through() {
    // the wrapper must not reorder, filter or rename entries
    let mut lv = Libvirt::new();
    lv.connect("test:///default".to_string(), Some(Ok(3))).unwrap();
    let names = vec!["zeta".to_string(), "alpha".to_string(), "alpha".to_string()];
    let r = lv.list_domains(true, Ok(names.clone())).unwrap();
    assert_eq!(r, names);
}

#[test]
fn list_domains_names_failures() {
    let mut lv = Libvirt::new();
    match lv.list_domains(true, Ok(vec![])) {
        Err(e) => assert_eq!(e.message(), "Connection not opened"),
        Ok(_) => panic!("should not list without a connection"),
    }
    lv.connect("test:///default".to_string(), Some(Ok(3))).unwrap();
    match lv.list_domains(true, Err("driver said no".to_string())) {
        Err(e) => assert_eq!(e.message(), "Error: driver said no"),
        Ok(_) => panic!("driver failure should pass through"),
    }
}

#[test]
fn get_dommain_wraps_handle_or_failure() {
    let mut lv = Libvirt::new();
    lv.connect("test:///default".to_string(), Some(Ok(3))).unwrap();
    let m = lv.get_dommain(true, "vm1".to_string(), Ok(40)).unwrap();
    assert_eq!(m.handle, 40);
    assert_eq!(m.con.handle, 3);
    match lv.get_dommain(true, "vm2".to_string(), Err("no domain".to_string())) {
        Err(e) => assert_eq!(e.message(), "Operation failed: no domain"),
        Ok(_) => panic!("missing domain should be reported"),
    }
}

#[test]
fn power_off_chooses_by_acpi() {
    assert!(matches!(power_off_action(true), PowerAction::Shutdown));
    assert!(matches!(power_off_action(false), PowerAction::Destroy));
}

#[test]
fn control_outcome_reports() {
    let m = Machine {
        handle: 4,
        con: libvirt_node::connection::ConnToken { handle: 3 },
    };
    assert_eq!(control_outcome(Ok(m), Ok(())).unwrap(), true);

    let m = Machine {
        handle: 4,
        con: libvirt_node::connection::ConnToken { handle: 3 },
    };
    match control_outcome(Ok(m), Err("busy".to_string())) {
        Err(e) => assert_eq!(e.message(), "Operation failed: busy"),
        Ok(_) => panic!("refused operation should be reported"),
    }

    match control_outcome(Err(LibvirtError::NotConnected), Ok(())) {
        Err(e) => assert_eq!(e.message(), "Machine not found: Connection not opened"),
        Ok(_) => panic!("missing machine should be reported"),
    }
}

#[test]
fn define_xml_outcome_reports() {
    assert_eq!(define_xml_outcome(Ok(3), Ok(41)).unwrap(), true);
    match define_xml_outcome(Ok(3), Err("bad xml".to_string())) {
        Err(e) => assert_eq!(e.message(), "Operation failed: bad xml"),
        Ok(_) => panic!("bad document should be reported"),
    }
    match define_xml_outcome(Err(LibvirtError::NotAlive), Ok(41)) {
        Err(e) => assert_eq!(e.message(), "Connection is not alive"),
        Ok(_) => panic!("dead connection should be reported"),
    }
}

#[test]
fn domain_info_report_defaults() {
    let r = domain_info_report(None, None, None, None, None, None, None, None, None);
    assert_eq!(r.id, 0);
    assert_eq!(r.name, "Unkown");
    assert_eq!(r.state, 0);
    assert_eq!(r.memory, 0);
    assert_eq!(r.vcpus, 0);
    assert_eq!(r.os_type, "Unkown");
    assert_eq!(r.hostname, "Unkown");
    assert_eq!(r.uuid, "Unknown");
    assert!(!r.is_active);
}

#[test]
fn domain_info_report_passes_answers_through() {
    let r = domain_info_report(
        Some(2),
        Some("vm1".to_string()),
        Some((1, 5)),
        Some(2048),
        Some(4),
        Some("hvm".to_string()),
        Some("host1".to_string()),
        Some("abcd-1234".to_string()),
        Some(true),
    );
    assert_eq!(r.id, 2);
    assert_eq!(r.name, "vm1");
    assert_eq!(r.state, 1);
    assert_eq!(r.memory, 2048);
    assert_eq!(r.vcpus, 4);
    assert_eq!(r.os_type, "hvm");
    assert_eq!(r.hostname, "host1");
    assert_eq!(r.uuid, "abcd-1234");
    assert!(r.is_active);
}
