use vstd::prelude::*;

use crate::error::{result_view, ErrorView, FridaError};
use crate::native::{failure_of, native_failure, unit_outcome, NativeError, NativeOp};

verus! {

/// The class of a device.
#[derive(Debug, Clone)]
pub enum DeviceKind {
    Local,
    Usb,
    Remote,
}

/// A device that can host instrumented processes, as the runtime last listed it.
#[derive(Debug, Clone)]
pub struct Device {
    pub id: String,
    pub name: String,
    pub kind: DeviceKind,
}

/// A running process of a device.
#[derive(Debug, Clone)]
pub struct ProcessInfo {
    pub pid: u32,
    pub name: String,
    pub icon: Option<Vec<u8>>,
}

/// Whether some device of `devices` has the identifier `id`.
pub open spec fn device_known(devices: Seq<Device>, id: Seq<char>) -> bool {
    exists|i: int| 0 <= i < devices.len() && devices[i].id@ == id
}

/// The position of the first device of `devices` whose identifier is `device_id`.
pub fn find_device(devices: &Vec<Device>, device_id: &String) -> (r: Option<usize>)
    ensures
        r is None <==> !device_known(devices@, device_id@),
        r matches Some(i) ==> i < devices@.len() && devices@[i as int].id@ == device_id@,
        r matches Some(i) ==> forall|j: int| 0 <= j < i ==> devices@[j].id@ != device_id@,
{
    let mut i: usize = 0;
    while i < devices.len()
        invariant
            i <= devices@.len(),
            forall|j: int| 0 <= j < i ==> devices@[j].id@ != device_id@,
        decreases devices@.len() - i,
    {
        if devices[i].id == *device_id {
            return Some(i);
        }
        i = i + 1;
    }
    None
}

/// The position of the device `device_id` in `devices`, or `DeviceNotFound`.
pub fn resolve_device(devices: &Vec<Device>, device_id: &String) -> (r: Result<usize, FridaError>)
    ensures
        r is Ok <==> device_known(devices@, device_id@),
        r matches Ok(i) ==> i < devices@.len() && devices@[i as int].id@ == device_id@,
        r matches Err(e) ==> e@ == ErrorView::DeviceNotFound(device_id@),
{
    match find_device(devices, device_id) {
        Some(i) => Ok(i),
        None => Err(FridaError::DeviceNotFound(device_id.clone())),
    }
}

/// The devices that the runtime enumerated; a failed enumeration is an internal error.
pub fn list_devices(enumerated: Result<Vec<Device>, NativeError>) -> (r: Result<Vec<Device>, FridaError>)
    ensures
        enumerated matches Ok(ds) ==> r == Ok::<Vec<Device>, FridaError>(ds),
        enumerated matches Err(e) ==> (r matches Err(f) && f@ == failure_of(NativeOp::Enumerate, e)),
{
    match enumerated {
        Ok(ds) => Ok(ds),
        Err(e) => Err(native_failure(NativeOp::Enumerate, e)),
    }
}

/// The processes of device `device_id`. `DeviceNotFound` where `devices` does not hold it;
/// otherwise the answer of the fresh query `fetched` that was made on that device.
pub fn list_processes(
    devices: &Vec<Device>,
    device_id: &String,
    fetched: Result<Vec<ProcessInfo>, NativeError>,
) -> (r: Result<Vec<ProcessInfo>, FridaError>)
    ensures
        !device_known(devices@, device_id@) ==> (r matches Err(e) && e@ == ErrorView::DeviceNotFound(device_id@)),
        device_known(devices@, device_id@) ==> match fetched {
            Ok(ps) => r == Ok::<Vec<ProcessInfo>, FridaError>(ps),
            Err(e) => r matches Err(f) && f@ == failure_of(NativeOp::Enumerate, e),
        },
{
    let _ = resolve_device(devices, device_id)?;
    match fetched {
        Ok(ps) => Ok(ps),
        Err(e) => Err(native_failure(NativeOp::Enumerate, e)),
    }
}

/// Resumes a spawned process of device `device_id`; `outcome` is the runtime's answer.
pub fn resume(devices: &Vec<Device>, device_id: &String, outcome: Result<(), NativeError>) -> (r: Result<(), FridaError>)
    ensures
        !device_known(devices@, device_id@) ==> result_view(r) == Err::<(), ErrorView>(ErrorView::DeviceNotFound(device_id@)),
        device_known(devices@, device_id@) ==> result_view(r) == unit_outcome(NativeOp::Resume, outcome),
{
    let _ = resolve_device(devices, device_id)?;
    match outcome {
        Ok(()) => Ok(()),
        Err(e) => Err(native_failure(NativeOp::Resume, e)),
    }
}

/// Terminates a process of device `device_id`; `outcome` is the runtime's answer.
pub fn kill(devices: &Vec<Device>, device_id: &String, outcome: Result<(), NativeError>) -> (r: Result<(), FridaError>)
    ensures
        !device_known(devices@, device_id@) ==> result_view(r) == Err::<(), ErrorView>(ErrorView::DeviceNotFound(device_id@)),
        device_known(devices@, device_id@) ==> result_view(r) == unit_outcome(NativeOp::Kill, outcome),
{
    let _ = resolve_device(devices, device_id)?;
    match outcome {
        Ok(()) => Ok(()),
        Err(e) => Err(native_failure(NativeOp::Kill, e)),
    }
}

} // verus!
