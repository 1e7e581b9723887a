//! The output: its names and modes, the device it is drawn with, and the format of its buffers.
use vstd::prelude::*;

verus! {

/// Where the daemon listens unless told otherwise.
pub const DEFAULT_SOCKET: &'static str = "/run/display.sock";

/// A pixel format of a buffer.
#[derive(Debug, Clone, Copy, PartialEq, Eq, Structural)]
pub enum Fourcc {
    Abgr8888,
    Xrgb8888,
}

/// The pixel format that a number of the protocol stands for.
pub open spec fn fourcc_of(format: u32) -> Fourcc {
    if format == 1 {
        Fourcc::Abgr8888
    } else {
        Fourcc::Xrgb8888
    }
}

/// The pixel format that a number of the protocol stands for.
pub fn protocol_format_to_fourcc(format: u32) -> (fourcc: Fourcc)
    ensures
        fourcc == fourcc_of(format),
{
    if format == 1 {
        Fourcc::Abgr8888
    } else {
        Fourcc::Xrgb8888
    }
}

/// The files of a device.
pub struct DevicePaths {
    pub drm: Option<String>,
    pub render: Option<String>,
}

/// A file of the device is the one that is wanted.
pub open spec fn path_is(path: Option<String>, desired: Seq<char>) -> bool {
    path matches Some(p) && p@ == desired
}

/// The device is the one that is wanted, if one is.
pub open spec fn device_fits(device: DevicePaths, desired: Option<String>) -> bool {
    match desired {
        Some(d) => d@.len() == 0 || path_is(device.drm, d@) || path_is(device.render, d@),
        None => true,
    }
}

fn path_equals(path: &Option<String>, desired: &String) -> (equal: bool)
    ensures
        equal == path_is(*path, desired@),
{
    match path {
        Some(p) => *p == *desired,
        None => false,
    }
}

/// The first device that fits. Without a wish, or with an empty one, every device does.
pub fn egl_device_for_env(desired: &Option<String>, devices: &Vec<DevicePaths>) -> (index: Option<
    usize,
>)
    ensures
        match index {
            Some(i) => i < devices@.len() && device_fits(devices@[i as int], *desired) && forall|
                j: int,
            |
                0 <= j < i ==> !device_fits(#[trigger] devices@[j], *desired),
            None => forall|j: int|
                0 <= j < devices@.len() ==> !device_fits(#[trigger] devices@[j], *desired),
        },
{
    let mut i: usize = 0;
    while i < devices.len()
        invariant
            i <= devices@.len(),
            forall|j: int| 0 <= j < i ==> !device_fits(#[trigger] devices@[j], *desired),
        decreases devices@.len() - i,
    {
        let fits = match desired {
            Some(d) => d.as_str().is_empty() || path_equals(&devices[i].drm, d) || path_equals(
                &devices[i].render,
                d,
            ),
            None => true,
        };
        if fits {
            return Some(i);
        }
        i += 1;
    }
    None
}

/// Where the daemon listens.
pub fn socket_path(env: Option<String>) -> (path: String)
    ensures
        path@ == (match env {
            Some(p) => p@,
            None => DEFAULT_SOCKET@,
        }),
{
    match env {
        Some(p) => p,
        None => DEFAULT_SOCKET.to_owned(),
    }
}

/// A path that holds no zero byte can be handed to the system.
pub fn path_is_valid(path: &[u8]) -> (valid: bool)
    ensures
        valid == !path@.contains(0u8),
{
    let mut i: usize = 0;
    while i < path.len()
        invariant
            i <= path@.len(),
            forall|j: int| 0 <= j < i ==> path@[j] != 0u8,
        decreases path@.len() - i,
    {
        if path[i] == 0 {
            assert(path@.contains(0u8));
            return false;
        }
        i += 1;
    }
    true
}

/// A mode of the output, as the renderer, the clients of the compositor and its tools see it.
#[derive(Debug, Clone, Copy, PartialEq, Eq, Structural)]
pub struct ModePlan {
    pub width: i32,
    pub height: i32,
    /// In millihertz.
    pub refresh: i32,
    pub ipc_width: u16,
    pub ipc_height: u16,
    pub logical_width: u32,
    pub logical_height: u32,
}

/// The output to be added.
pub struct OutputPlan {
    pub connector: &'static str,
    pub make: &'static str,
    pub model: &'static str,
    pub serial: &'static str,
    pub width: i32,
    pub height: i32,
    pub refresh: i32,
    pub ipc_width: u16,
    pub ipc_height: u16,
    pub ipc_refresh: u32,
}

/// `x` as 16 bits without a sign, or the nearest number that is.
pub open spec fn clamped_u16(x: i32) -> u16 {
    if x < 0 {
        0
    } else if x > u16::MAX {
        u16::MAX
    } else {
        x as u16
    }
}

/// `x` as 16 bits without a sign, or the nearest number that is.
pub fn clamp_u16(x: i32) -> (r: u16)
    ensures
        r == clamped_u16(x),
{
    if x < 0 {
        0
    } else if x > u16::MAX as i32 {
        u16::MAX
    } else {
        x as u16
    }
}

/// The mode for buffers of this size.
pub open spec fn mode_for(width: i32, height: i32, refresh: u32) -> ModePlan {
    ModePlan {
        width,
        height,
        refresh: refresh as i32,
        ipc_width: clamped_u16(width),
        ipc_height: clamped_u16(height),
        logical_width: width as u32,
        logical_height: height as u32,
    }
}

} // verus!
