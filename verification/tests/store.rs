use ssedge::db::Db;

#[test]
fn add_device_then_list_includes_it() {
    let mut db = Db::open_in_memory().unwrap();
    let id = db.insert_device("h1", "10.0.0.1", None).unwrap();
    let all = db.get_all_devices().unwrap();
    let found = all.iter().find(|d| d.id == id).expect("inserted device must be listed");
    assert_eq!(found.name, "h1");
    assert_eq!(found.ip, "10.0.0.1");
    assert_eq!(found.last_seen, None);
}

#[test]
fn delete_device_then_get_is_absent() {
    let mut db = Db::open_in_memory().unwrap();
    let id = db.insert_device("h1", "10.0.0.1", Some(5)).unwrap();
    assert!(db.get_device(id).unwrap().is_some());
    let gone = db.delete_device(id).unwrap();
    assert_eq!(gone, 1);
    assert!(db.get_device(id).unwrap().is_none());
}

#[test]
fn delete_of_absent_device_touches_no_row() {
    let mut db = Db::open_in_memory().unwrap();
    assert_eq!(db.delete_device(41).unwrap(), 0);
}

#[test]
fn repeated_registration_creates_duplicate_rows() {
    let mut db = Db::open_in_memory().unwrap();
    let id1 = db.insert_device("h1", "10.0.0.1", None).unwrap();
    let id2 = db.insert_device("h1", "10.0.0.1", None).unwrap();
    assert_ne!(id1, id2);
    let all = db.get_all_devices().unwrap();
    assert_eq!(all.iter().filter(|d| d.name == "h1").count(), 2);
}

#[test]
fn listing_is_ordered_by_ascending_id() {
    let mut db = Db::open_in_memory().unwrap();
    for k in 0..5 {
        db.insert_device(&format!("h{}", k), "10.0.0.9", None).unwrap();
    }
    let all = db.get_all_devices().unwrap();
    assert_eq!(all.len(), 5);
    for w in all.windows(2) {
        assert!(w[0].id < w[1].id);
    }
}

#[test]
fn get_device_returns_the_stored_fields() {
    let mut db = Db::open_in_memory().unwrap();
    let id = db.insert_device("edge-7", "192.168.1.7", Some(1700000000)).unwrap();
    let d = db.get_device(id).unwrap().expect("row must be present");
    assert_eq!(d.id, id);
    assert_eq!(d.name, "edge-7");
    assert_eq!(d.ip, "192.168.1.7");
    assert_eq!(d.last_seen, Some(1700000000));
}

#[test]
fn tunnel_roundtrip_and_boundary_check() {
    let mut db = Db::open_in_memory().unwrap();
    assert!(db.insert_tunnel(99, "up", None).is_err());
    let dev = db.insert_device("h", "ip", None).unwrap();
    let tid = db.insert_tunnel(dev, "up", Some(3)).unwrap();
    let t = db.get_tunnel(tid).unwrap().expect("tunnel must be present");
    assert_eq!(t.id, tid);
    assert_eq!(t.device_id, dev);
    assert_eq!(t.status, "up");
    assert_eq!(t.last_checked, Some(3));
    assert_eq!(db.delete_tunnel(tid).unwrap(), 1);
    assert!(db.get_tunnel(tid).unwrap().is_none());
    assert_eq!(db.delete_tunnel(tid).unwrap(), 0);
}

#[test]
fn metric_roundtrip_and_boundary_check() {
    let mut db = Db::open_in_memory().unwrap();
    assert!(db.insert_metric(1, 1250, 204800, 10).is_err());
    let dev = db.insert_device("h", "ip", None).unwrap();
    let mid = db.insert_metric(dev, 1250, 204800, 10).unwrap();
    let m = db.get_metric(mid).unwrap().expect("metric must be present");
    assert_eq!(m.id, mid);
    assert_eq!(m.device_id, dev);
    assert_eq!(m.cpu_centi, 1250);
    assert_eq!(m.mem_centi, 204800);
    assert_eq!(m.timestamp, 10);
    assert_eq!(db.delete_metric(mid).unwrap(), 1);
    assert!(db.get_metric(mid).unwrap().is_none());
}

#[test]
fn command_log_roundtrip_and_boundary_check() {
    let mut db = Db::open_in_memory().unwrap();
    assert!(db.insert_command_log(1, "uptime", None, 4).is_err());
    let dev = db.insert_device("h", "ip", None).unwrap();
    let with_output = db.insert_command_log(dev, "uptime", Some("up 3 days"), 4).unwrap();
    let without_output = db.insert_command_log(dev, "reboot", None, 5).unwrap();
    let c1 = db.get_command_log(with_output).unwrap().expect("log must be present");
    assert_eq!(c1.device_id, dev);
    assert_eq!(c1.command, "uptime");
    assert_eq!(c1.output.as_deref(), Some("up 3 days"));
    assert_eq!(c1.timestamp, 4);
    let c2 = db.get_command_log(without_output).unwrap().unwrap();
    assert_eq!(c2.output, None);
    assert_eq!(db.delete_command_log(with_output).unwrap(), 1);
    assert!(db.get_command_log(with_output).unwrap().is_none());
}

#[test]
fn many_inserts_yield_distinct_ids_and_no_lost_rows() {
    let mut db = Db::open_in_memory().unwrap();
    let mut ids = Vec::new();
    for k in 0..20 {
        ids.push(db.insert_device(&format!("n{}", k), "ip", None).unwrap());
    }
    let mut unique = ids.clone();
    unique.sort();
    unique.dedup();
    assert_eq!(unique.len(), 20);
    let all = db.get_all_devices().unwrap();
    assert_eq!(all.len(), 20);
    for id in ids {
        assert!(db.get_device(id).unwrap().is_some());
    }
}
