use frida_worker::messages::{tag_message, MessageKind, MessageQueue};
use frida_worker::native::NativeError;
use frida_worker::registry::{list_devices, list_processes, resolve_device, Device, DeviceKind, ProcessInfo};
use frida_worker::error::FridaError;
use frida_worker::session::{SessionState, SessionTable, Spawned};

fn devices() -> Vec<Device> {
    vec![
        Device { id: "local".to_string(), name: "Local System".to_string(), kind: DeviceKind::Local },
        Device { id: "usb-1".to_string(), name: "Phone".to_string(), kind: DeviceKind::Usb },
    ]
}

#[test]
fn attach_load_post_detach_scenario() {
    let devs = devices();
    let mut table = SessionTable::new();
    let sid = table.attach(&devs, &"local".to_string(), 1234, Ok(0xa0)).unwrap();
    assert_eq!(sid, 1);
    assert!(frida_worker::error::validate_no_nul("source", "console.log(1)").is_ok());
    let script_id = table.load_script(1, Ok(0xb0)).unwrap();
    assert_eq!(script_id, 1);
    assert!(matches!(table.state(1), Some(SessionState::ScriptLoaded)));
    assert!(table.post_message(1, Ok(())).is_ok());

    let mut queue = MessageQueue::new(8);
    let env = tag_message(&table, 1, 1, MessageKind::Event, "{\"type\":\"pong\"}".to_string()).unwrap();
    assert!(queue.push(env));
    let delivered = queue.pop().unwrap();
    assert_eq!(delivered.session_id, 1);
    assert_eq!(delivered.script_id, 1);

    let removed = table.detach(1).unwrap();
    assert_eq!(removed.handle, 0xa0);
    assert_eq!(removed.script.unwrap().handle, 0xb0);
    assert!(!table.contains(1));
    assert_eq!(table.len(), 0);
}

#[test]
fn list_processes_of_missing_device() {
    let devs = devices();
    let r = list_processes(&devs, &"missing-device".to_string(), Ok(vec![]));
    assert!(matches!(r, Err(FridaError::DeviceNotFound(ref d)) if d == "missing-device"));
}

#[test]
fn list_processes_of_known_device() {
    let devs = devices();
    let ps = vec![ProcessInfo { pid: 7, name: "init".to_string(), icon: None }];
    let r = list_processes(&devs, &"usb-1".to_string(), Ok(ps)).unwrap();
    assert_eq!(r.len(), 1);
    assert_eq!(r[0].pid, 7);
    let r = list_processes(&devs, &"usb-1".to_string(), Err(NativeError::Failed("gone".to_string())));
    assert!(matches!(r, Err(FridaError::Internal(ref d)) if d == "gone"));
}

#[test]
fn attach_to_missing_process() {
    let devs = devices();
    let mut table = SessionTable::new();
    table.attach(&devs, &"local".to_string(), 10, Ok(1)).unwrap();
    let r = table.attach(&devs, &"local".to_string(), 99999, Err(NativeError::ProcessNotFound(99999)));
    assert!(matches!(r, Err(FridaError::ProcessNotFound(99999))));
    assert_eq!(table.len(), 1);
    assert!(table.contains(1));
    assert!(!table.contains(2));
}

#[test]
fn attach_to_unknown_device_leaves_table() {
    let devs = devices();
    let mut table = SessionTable::new();
    let r = table.attach(&devs, &"nowhere".to_string(), 5, Ok(3));
    assert!(matches!(r, Err(FridaError::DeviceNotFound(ref d)) if d == "nowhere"));
    assert_eq!(table.len(), 0);
}

#[test]
fn attach_failures_are_converted() {
    let devs = devices();
    let mut table = SessionTable::new();
    let r = table.attach(&devs, &"local".to_string(), 5, Err(NativeError::Failed("denied".to_string())));
    assert!(matches!(r, Err(FridaError::AttachFailed(ref d)) if d == "denied"));
    let r = table.attach(&devs, &"local".to_string(), 5, Err(NativeError::Timeout));
    assert!(matches!(r, Err(FridaError::Timeout)));
    assert_eq!(table.len(), 0);
}

#[test]
fn unknown_session_is_refused_everywhere() {
    let devs = devices();
    let mut table = SessionTable::new();
    table.attach(&devs, &"local".to_string(), 10, Ok(1)).unwrap();
    assert!(matches!(table.detach(42), Err(FridaError::SessionNotFound(42))));
    assert!(matches!(table.load_script(42, Ok(9)), Err(FridaError::SessionNotFound(42))));
    assert!(matches!(table.unload_script(42), Err(FridaError::SessionNotFound(42))));
    assert!(matches!(table.post_message(42, Ok(())), Err(FridaError::SessionNotFound(42))));
    assert_eq!(table.len(), 1);
    assert!(table.get(1).unwrap().script.is_none());
}

#[test]
fn attach_then_detach_leaves_table_empty() {
    let devs = devices();
    let mut table = SessionTable::new();
    let before = table.len();
    let id = table.attach(&devs, &"usb-1".to_string(), 300, Ok(77)).unwrap();
    assert_eq!(table.len(), before + 1);
    table.detach(id).unwrap();
    assert_eq!(table.len(), before);
}

#[test]
fn load_twice_replaces_script() {
    let devs = devices();
    let mut table = SessionTable::new();
    let id = table.attach(&devs, &"local".to_string(), 1, Ok(5)).unwrap();
    let first = table.load_script(id, Ok(100)).unwrap();
    let second = table.load_script(id, Ok(200)).unwrap();
    assert_ne!(first, second);
    let script = table.get(id).unwrap().script.as_ref().unwrap();
    assert_eq!(script.id, second);
    assert_eq!(script.handle, 200);
    assert!(tag_message(&table, id, first, MessageKind::Log, "late".to_string()).is_none());
}

#[test]
fn failed_load_leaves_session_without_script() {
    let devs = devices();
    let mut table = SessionTable::new();
    let id = table.attach(&devs, &"local".to_string(), 1, Ok(5)).unwrap();
    table.load_script(id, Ok(100)).unwrap();
    let r = table.load_script(id, Err(NativeError::Failed("syntax error".to_string())));
    assert!(matches!(r, Err(FridaError::ScriptLoadFailed(ref d)) if d == "syntax error"));
    assert!(matches!(table.state(id), Some(SessionState::Attached)));
}

#[test]
fn unload_without_script_is_noop() {
    let devs = devices();
    let mut table = SessionTable::new();
    let id = table.attach(&devs, &"local".to_string(), 1, Ok(5)).unwrap();
    assert!(table.unload_script(id).unwrap().is_none());
    assert!(matches!(table.state(id), Some(SessionState::Attached)));
    assert_eq!(table.len(), 1);
    let s = table.get(id).unwrap();
    assert_eq!(s.handle, 5);
    assert_eq!(s.pid, 1);
}

#[test]
fn unload_returns_the_script() {
    let devs = devices();
    let mut table = SessionTable::new();
    let id = table.attach(&devs, &"local".to_string(), 1, Ok(5)).unwrap();
    let sc = table.load_script(id, Ok(40)).unwrap();
    let removed = table.unload_script(id).unwrap().unwrap();
    assert_eq!(removed.id, sc);
    assert_eq!(removed.handle, 40);
    assert!(matches!(table.state(id), Some(SessionState::Attached)));
}

#[test]
fn second_detach_is_refused() {
    let devs = devices();
    let mut table = SessionTable::new();
    let id = table.attach(&devs, &"local".to_string(), 1, Ok(5)).unwrap();
    assert!(table.detach(id).is_ok());
    assert!(matches!(table.detach(id), Err(FridaError::SessionNotFound(x)) if x == id));
    assert_eq!(table.len(), 0);
}

#[test]
fn session_ids_are_not_reused() {
    let devs = devices();
    let mut table = SessionTable::new();
    let a = table.attach(&devs, &"local".to_string(), 1, Ok(5)).unwrap();
    table.detach(a).unwrap();
    let b = table.attach(&devs, &"local".to_string(), 1, Ok(6)).unwrap();
    assert_eq!(a, 1);
    assert_eq!(b, 2);
}

#[test]
fn post_without_script_or_with_failure() {
    let devs = devices();
    let mut table = SessionTable::new();
    let id = table.attach(&devs, &"local".to_string(), 1, Ok(5)).unwrap();
    assert!(matches!(table.post_message(id, Ok(())), Err(FridaError::ScriptNotFound(x)) if x == id));
    table.load_script(id, Ok(9)).unwrap();
    assert_eq!(table.post_target(id).unwrap().handle, 9);
    let r = table.post_message(id, Err(NativeError::Failed("closed".to_string())));
    assert!(matches!(r, Err(FridaError::RpcFailed(ref d)) if d == "closed"));
}

#[test]
fn spawn_with_and_without_attach() {
    let devs = devices();
    let mut table = SessionTable::new();
    let r = table.spawn(&devs, &"local".to_string(), Ok(Spawned { pid: 4321, session: None })).unwrap();
    assert_eq!(r, (4321, None));
    assert_eq!(table.len(), 0);
    let r = table.spawn(&devs, &"local".to_string(), Ok(Spawned { pid: 4322, session: Some(8) })).unwrap();
    assert_eq!(r, (4322, Some(1)));
    assert_eq!(table.get(1).unwrap().pid, 4322);
    let r = table.spawn(&devs, &"local".to_string(), Err(NativeError::Failed("no such file".to_string())));
    assert!(matches!(r, Err(FridaError::SpawnFailed(ref d)) if d == "no such file"));
}

#[test]
fn resume_and_kill_outcomes() {
    let devs = devices();
    assert!(frida_worker::registry::resume(&devs, &"local".to_string(), Ok(())).is_ok());
    let r = frida_worker::registry::resume(&devs, &"local".to_string(), Err(NativeError::Failed("not suspended".to_string())));
    assert!(matches!(r, Err(FridaError::ResumeFailed(ref d)) if d == "not suspended"));
    let r = frida_worker::registry::kill(&devs, &"local".to_string(), Err(NativeError::Failed("denied".to_string())));
    assert!(matches!(r, Err(FridaError::KillFailed(ref d)) if d == "denied"));
    let r = frida_worker::registry::kill(&devs, &"tcp".to_string(), Ok(()));
    assert!(matches!(r, Err(FridaError::DeviceNotFound(_))));
}

#[test]
fn device_listing_and_resolution() {
    assert_eq!(resolve_device(&devices(), &"usb-1".to_string()).unwrap(), 1);
    assert_eq!(list_devices(Ok(devices())).unwrap().len(), 2);
    let r = list_devices(Err(NativeError::Failed("runtime down".to_string())));
    assert!(matches!(r, Err(FridaError::Internal(ref d)) if d == "runtime down"));
}

#[test]
fn stale_messages_are_dropped() {
    let devs = devices();
    let mut table = SessionTable::new();
    let id = table.attach(&devs, &"local".to_string(), 1, Ok(5)).unwrap();
    assert!(tag_message(&table, id, 1, MessageKind::Event, "x".to_string()).is_none());
    table.load_script(id, Ok(9)).unwrap();
    assert!(tag_message(&table, id, 1, MessageKind::RpcReply, "x".to_string()).is_some());
    table.detach(id).unwrap();
    assert!(tag_message(&table, id, 1, MessageKind::Event, "x".to_string()).is_none());
}

#[test]
fn queue_keeps_order_and_bound() {
    let devs = devices();
    let mut table = SessionTable::new();
    let id = table.attach(&devs, &"local".to_string(), 1, Ok(5)).unwrap();
    let sc = table.load_script(id, Ok(9)).unwrap();
    let mut q = MessageQueue::new(2);
    assert!(q.push(tag_message(&table, id, sc, MessageKind::Event, "a".to_string()).unwrap()));
    assert!(q.push(tag_message(&table, id, sc, MessageKind::Log, "b".to_string()).unwrap()));
    assert!(!q.push(tag_message(&table, id, sc, MessageKind::Event, "c".to_string()).unwrap()));
    assert_eq!(q.len(), 2);
    assert_eq!(q.pop().unwrap().payload, "a");
    assert_eq!(q.pop().unwrap().payload, "b");
    assert!(q.pop().is_none());
}
