use libvirt_node::big::Big;
use libvirt_node::connection::Connection;
use libvirt_node::machine::{Machine, MemoryParameters};
use libvirt_node::network::Network;
use libvirt_node::nw_filter::NWFilter;
use libvirt_node::snapshot::Snapshot;
use libvirt_node::storage_pool::StoragePool;
use libvirt_node::storage_vol::StorageVol;

fn open_conn(handle: u64) -> Connection {
    Connection::open("test:///default".to_string(), Some(handle)).unwrap()
}

#[test]
fn connection_open_requires_handle() {
    // no handle from the driver, no connection object at all
    assert!(Connection::open("qemu:///system".to_string(), None).is_none());
    let c = open_conn(9);
    assert_eq!(c.handle, Some(9));
    assert_eq!(c.uri, "test:///default");
}

#[test]
fn connection_close_twice_is_noop() {
    let mut c = open_conn(9);
    assert_eq!(c.close(), Some(9));
    // closing again is a no-op, not a failure
    assert_eq!(c.close(), None);
    assert_eq!(c.handle, None);
    assert_eq!(c.uri, "test:///default");
}

#[test]
fn connection_reopen_keeps_uri() {
    let c = open_conn(9);
    let d = c.reopen(Some(11)).unwrap();
    assert_eq!(d.handle, Some(11));
    assert_eq!(d.uri, "test:///default");
    assert!(c.reopen(None).is_none());
}

#[test]
fn connection_lists_pass_through() {
    // opening a connection with the default URI and listing defined
    // domains reports the driver's list as it is: same names, same order
    let c = open_conn(9);
    let names = vec!["c".to_string(), "a".to_string(), "b".to_string()];
    assert_eq!(c.list_defined_domains(Some(names.clone())), Some(names));
    assert_eq!(c.list_defined_domains(None), None);
    assert_eq!(c.num_of_domains(Some(4)), Some(4));
    assert_eq!(c.is_alive(Some(true)), Some(true));
}

#[test]
fn connection_wraps_each_domain_handle() {
    let c = open_conn(9);
    let machines = c.list_all_domains(0, Some(vec![5, 6, 7])).unwrap();
    assert_eq!(machines.len(), 3);
    assert_eq!(machines[0].handle, 5);
    assert_eq!(machines[2].handle, 7);
    assert_eq!(machines[1].con.handle, 9);
    assert!(c.list_all_domains(0, None).is_none());
}

#[test]
fn connection_wraps_other_resources() {
    let c = open_conn(9);
    let nets = c.list_all_networks(0, Some(vec![21, 22])).unwrap();
    assert_eq!(nets.len(), 2);
    assert_eq!(nets[1].handle, 22);
    let pools = c.list_all_storage_pools(0, Some(vec![31])).unwrap();
    assert_eq!(pools[0].handle, 31);
}

#[test]
fn machine_lookup_never_half_made() {
    let c = open_conn(9);
    // a lookup the driver answered yields the whole machine
    let m = Machine::lookup_by_name(&c, "vm1".to_string(), Some(40)).unwrap();
    assert_eq!(m.handle, 40);
    assert_eq!(m.con.handle, 9);
    // a lookup for a name that does not exist yields nothing at all
    assert!(Machine::lookup_by_name(&c, "ghost".to_string(), None).is_none());
    assert!(Machine::lookup_by_id(&c, 0, None).is_none());
    assert!(Machine::lookup_by_uuid_string(&c, "no-such".to_string(), None).is_none());
    // and no machine is made over a closed connection
    let mut closed = open_conn(9);
    closed.close();
    assert!(Machine::lookup_by_name(&closed, "vm1".to_string(), Some(40)).is_none());
}

#[test]
fn big_get_u64_reports_losslessness() {
    let b = Big::from_u64(1024);
    assert_eq!(b.get_u64(), (false, 1024, true));
    let wide = Big::from_words(false, vec![1, 1]);
    let (_s, _v, lossless) = wide.get_u64();
    assert!(!lossless);
    let negative = Big::from_words(true, vec![5]);
    let (signed, _v, lossless) = negative.get_u64();
    assert!(signed && !lossless);
}

#[test]
fn narrowing_guard_rejects_overflow_before_any_call() {
    let c = open_conn(9);
    let m = Machine::lookup_by_name(&c, "vm1".to_string(), Some(40)).unwrap();
    // in range: forwarded unchanged
    let call = m.set_max_memory(&Big::from_u64(2048)).unwrap();
    assert_eq!(call.value, 2048);
    assert_eq!(call.domain, 40);
    // beyond 64 bits: rejected, no call is produced
    assert!(m.set_max_memory(&Big::from_words(false, vec![0, 1])).is_none());
    // negative: rejected as well
    assert!(m.set_memory(&Big::from_words(true, vec![7])).is_none());
    let call = m.set_memory_flags(&Big::from_u64(1), 2).unwrap();
    assert_eq!((call.value, call.flags), (1, 2));
    assert!(m.migrate_set_max_speed(&Big::from_words(false, vec![0, 2]), 0).is_none());
    let call = m.set_block_threshold("vda".to_string(), &Big::from_u64(9), 0).unwrap();
    assert_eq!(call.dev, "vda");
    assert_eq!(call.value, 9);
    assert!(m.block_resize("vda".to_string(), &Big::from_words(false, vec![1, 1]), 0).is_none());
}

#[test]
fn memory_parameters_all_fields_guarded() {
    let c = open_conn(9);
    let m = Machine::lookup_by_name(&c, "vm1".to_string(), Some(40)).unwrap();
    let params = MemoryParameters {
        hard_limit: Some(Big::from_u64(100)),
        soft_limit: None,
        min_guarantee: Some(Big::from_u64(50)),
        swap_hard_limit: None,
    };
    let call = m.set_memory_parameters(params, 1).unwrap();
    assert_eq!(call.hard_limit, Some(100));
    assert_eq!(call.soft_limit, None);
    assert_eq!(call.min_guarantee, Some(50));
    assert_eq!(call.flags, 1);
    // one oversized field refuses the whole call
    let params = MemoryParameters {
        hard_limit: Some(Big::from_u64(100)),
        soft_limit: Some(Big::from_words(false, vec![0, 1])),
        min_guarantee: None,
        swap_hard_limit: None,
    };
    assert!(m.set_memory_parameters(params, 1).is_none());
}

#[test]
fn machine_migrate_guard() {
    let c = open_conn(9);
    let dest = open_conn(10);
    let m = Machine::lookup_by_name(&c, "vm1".to_string(), Some(40)).unwrap();
    let call = m
        .migrate(&dest, 0, "tcp://host2/".to_string(), &Big::from_u64(0))
        .unwrap();
    assert_eq!(call.bandwidth, 0);
    assert_eq!(call.dest.unwrap().handle, 10);
    assert_eq!(call.mig_uri, Some("tcp://host2/".to_string()));
    assert!(m
        .migrate(&dest, 0, "tcp://host2/".to_string(), &Big::from_words(false, vec![0, 1]))
        .is_none());
}

#[test]
fn machine_agent_command_passes_text_verbatim() {
    let c = open_conn(9);
    let m = Machine::lookup_by_name(&c, "vm1".to_string(), Some(40)).unwrap();
    let call = m.qemu_agent_command("{\"execute\":\"guest-sync\"}".to_string(), 30, 0);
    assert_eq!(call.cmd, "{\"execute\":\"guest-sync\"}");
    assert_eq!(call.domain, 40);
    assert_eq!(call.timeout, 30);
}

#[test]
fn machine_absorbs_info() {
    let c = open_conn(9);
    let m = Machine::lookup_by_name(&c, "vm1".to_string(), Some(40)).unwrap();
    let info = m.get_info(Some((1, 4096, 2048, 2, 999))).unwrap();
    assert_eq!(info.state, 1);
    assert_eq!(info.max_mem.get_u64(), (false, 4096, true));
    assert_eq!(info.memory.get_u64(), (false, 2048, true));
    assert_eq!(info.nr_virt_cpu, 2);
    assert!(m.get_info(None).is_none());
    let st = m.get_state(Some((5, -1))).unwrap();
    assert_eq!((st.result, st.reason), (5, -1));
    let stats = m.memory_stats(0, Some(vec![(1, 10), (2, 20)])).unwrap();
    assert_eq!(stats.len(), 2);
    assert_eq!(stats[1].tag, 2);
    assert_eq!(stats[1].val.get_u64(), (false, 20, true));
}

#[test]
fn machine_accepts_pass_through() {
    let c = open_conn(9);
    let m = Machine::lookup_by_name(&c, "vm1".to_string(), Some(40)).unwrap();
    assert_eq!(m.get_name(Some("vm1".to_string())), Some("vm1".to_string()));
    assert_eq!(m.get_name(None), None);
    assert_eq!(m.is_active(Some(true)), Some(true));
    assert_eq!(m.suspend(Some(0)), Some(0));
    assert_eq!(m.get_xml_desc(0, Some("<domain/>".to_string())), Some("<domain/>".to_string()));
}

#[test]
fn define_then_read_back_keeps_the_document() {
    // the binding hands the defining document to the driver verbatim and
    // hands the driver's description back verbatim: what names the
    // machine on the way in comes back out
    let c = open_conn(9);
    let xml = "<domain><name>web01</name></domain>".to_string();
    let m = Machine::define_xml(&c, xml.clone(), Some(41)).unwrap();
    assert_eq!(m.handle, 41);
    let described = m.get_xml_desc(0, Some(xml.clone())).unwrap();
    assert!(described.contains("web01"));
    assert_eq!(described, xml);
}

#[test]
fn network_wrapper_surface() {
    let c = open_conn(9);
    let n = Network::lookup_by_name(&c, "default".to_string(), Some(60)).unwrap();
    assert_eq!(n.get(), 60);
    assert!(Network::lookup_by_name(&c, "ghost".to_string(), None).is_none());
    assert_eq!(n.get_name(Some("default".to_string())), Some("default".to_string()));
    // success collapses to the zero marker
    assert_eq!(n.create(Some(12)), Some(0));
    assert_eq!(n.destroy(None), None);
    let d = Network::define_xml(&c, "<network/>".to_string(), Some(61)).unwrap();
    assert_eq!(d.get(), 61);
}

#[test]
fn nw_filter_wrapper_surface() {
    let c = open_conn(9);
    let f = NWFilter::lookup_by_uuid_string(&c, "u-u-i-d".to_string(), Some(70)).unwrap();
    assert_eq!(f.get(), 70);
    assert_eq!(f.undefine(Some(1)), Some(0));
    assert!(NWFilter::lookup_by_name(&c, "ghost".to_string(), None).is_none());
}

#[test]
fn storage_pool_reports_info_as_json() {
    let c = open_conn(9);
    let p = StoragePool::lookup_by_name(&c, "default".to_string(), Some(80)).unwrap();
    let info = p.get_info(Some((2, 1000, 300, 700))).unwrap();
    assert_eq!(
        String::from_utf8(info).unwrap(),
        "{\"allocation\":300,\"available\":700,\"capacity\":1000,\"state\":2}"
    );
    assert!(p.get_info(None).is_none());
}

#[test]
fn storage_vol_reports_info_as_json() {
    let c = open_conn(9);
    let p = StoragePool::lookup_by_name(&c, "default".to_string(), Some(80)).unwrap();
    let v = StorageVol::lookup_by_name(&p, "disk1".to_string(), Some(90)).unwrap();
    let info = v.get_info(Some((1, 5000, 1200))).unwrap();
    assert_eq!(
        String::from_utf8(info).unwrap(),
        "{\"allocation\":\"1200\",\"capacity\":\"5000\",\"type\":1}"
    );
    // the resize guard is the same narrowing guard
    assert!(v.resize(&Big::from_words(false, vec![0, 1]), 0).is_none());
    let call = v.resize(&Big::from_u64(8000), 0).unwrap();
    assert_eq!(call.value, 8000);
}

#[test]
fn snapshot_wrapper_surface() {
    let mut s = Snapshot::from_domain_snapshot(100);
    assert_eq!(s.get_name(Some("snap1".to_string())), Some("snap1".to_string()));
    assert!(s.delete(0, Some(0)));
    assert!(!s.delete(0, None));
    let parent = s.get_parent(0, Some(101)).unwrap();
    assert_eq!(parent.handle, 101);
    assert!(s.free(Some(0)));
}

#[test]
fn connection_get_connection_reports_handle() {
    let mut c = open_conn(9);
    assert_eq!(c.get_connection(), Some(9));
    c.close();
    assert_eq!(c.get_connection(), None);
}

#[test]
fn snapshot_info_holds_fields() {
    let info = libvirt_node::snapshot::SnapshotInfo {
        name: "snap1".to_string(),
        description: None,
        creation_time: 1700000000,
        is_current: true,
        has_metadata: false,
    };
    assert_eq!(info.name, "snap1");
    assert!(info.is_current && !info.has_metadata);
}

#[test]
fn holder_wrappers_keep_their_handles() {
    let i = libvirt_node::interface::Interface::from_interface(201);
    assert_eq!(i.get(), 201);
    let n = libvirt_node::node_device::NodeDevice::from_node(202);
    assert_eq!(n.get(), 202);
    let s = libvirt_node::secret::Secret::from_secret(203);
    assert_eq!(s.get(), 203);
    let d = libvirt_node::domain_stats_record::DomainStatsRecord::from_stat(204);
    assert_eq!(d.get(), 204);
}

#[test]
fn node_info_holds_the_account() {
    let c = open_conn(9);
    let info = c
        .get_node_info(Some(("x86_64".to_string(), 8192, 4, 2400, 1, 1, 4, 1)))
        .unwrap();
    assert_eq!(info.model, "x86_64");
    assert_eq!(info.memory, 8192);
    assert_eq!(info.cpus, 4);
    assert_eq!(info.threads, 1);
    assert!(c.get_node_info(None).is_none());
}

#[test]
fn domain_stats_are_wrapped_in_order() {
    let c = open_conn(9);
    let stats = c.get_all_domain_stats(7, 0, Some(vec![301, 302])).unwrap();
    assert_eq!(stats.len(), 2);
    assert_eq!(stats[0].get(), 301);
    assert_eq!(stats[1].get(), 302);
}

#[test]
fn lifecycle_collapses_to_success_marker() {
    // success is reported as the bare zero marker, whatever number the
    // driver's binding produced along the way
    let c = open_conn(9);
    let mut m = Machine::lookup_by_name(&c, "vm1".to_string(), Some(40)).unwrap();
    assert_eq!(m.undefine(Some(7)), Some(0));
    assert_eq!(m.undefine(None), None);
    assert_eq!(m.undefine_flags(1, Some(9)), Some(0));
    assert_eq!(m.free(Some(3)), Some(0));
    assert_eq!(m.free(None), None);
    assert_eq!(m.handle, 40);
    assert_eq!(Machine::domain_restore(&c, "/tmp/img".to_string(), Some(5)), Some(0));
    assert_eq!(Machine::domain_restore_flags(&c, "/tmp/img".to_string(), 0, None), None);
    let p = StoragePool::lookup_by_name(&c, "default".to_string(), Some(80)).unwrap();
    assert_eq!(p.refresh(0, Some(2)), Some(0));
    assert_eq!(p.set_autostart(true, Some(6)), Some(0));
    assert_eq!(p.set_autostart(false, None), None);
}
