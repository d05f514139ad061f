//! Monitors: the outputs that the compositor advertises, and what it reports
//! about them.
use crate::window::{PhysicalPosition, PhysicalSize};
use crate::handoff::{clone_output, OutputHandle};
use smithay_client_toolkit::reexports::client::protocol::wl_output::WlOutput;
use std::collections::VecDeque;
use vstd::prelude::*;
use vstd::string::*;

verus! {

/// A display mode that the compositor advertises for an output.
#[derive(Clone, Copy, Debug, PartialEq, Eq, Hash, Structural)]
pub struct OutputMode {
    pub width: i32,
    pub height: i32,
    /// In millihertz.
    pub refresh_rate: i32,
    pub is_current: bool,
    pub is_preferred: bool,
}

/// What the compositor has reported about an output.
#[derive(Clone, Debug)]
pub struct OutputSnapshot {
    /// The identifier of the output as a global of the compositor.
    pub id: u32,
    pub model: String,
    pub make: String,
    /// The top-left corner of the output in compositor space.
    pub location: PhysicalPosition,
    pub scale_factor: i32,
    pub modes: Vec<OutputMode>,
}

/// The size of a mode, its dimensions read as unsigned numbers.
pub open spec fn mode_size(m: OutputMode) -> PhysicalSize {
    PhysicalSize { width: m.width as u32, height: m.height as u32 }
}

/// `size` is the size of the first current mode in `modes`, or zero when no
/// mode is current.
pub open spec fn is_current_size(modes: Seq<OutputMode>, size: PhysicalSize) -> bool {
    ||| exists|i: int|
        0 <= i < modes.len() && #[trigger] modes[i].is_current && (forall|j: int|
            0 <= j < i ==> !(#[trigger] modes[j]).is_current) && size == mode_size(modes[i])
    ||| (forall|j: int| 0 <= j < modes.len() ==> !(#[trigger] modes[j]).is_current) && size
        == PhysicalSize { width: 0, height: 0 }
}

/// The name of a monitor of this model and make: "model (make)".
pub open spec fn monitor_name_spec(model: Seq<char>, make: Seq<char>) -> Seq<char> {
    model + " ("@ + make + ")"@
}

/// The name of the monitor in a report.
pub fn name_from_info(info: &Option<OutputSnapshot>) -> (name: Option<String>)
    ensures
        match info {
            Some(i) => name matches Some(n) && n@ == monitor_name_spec(i.model@, i.make@),
            None => name is None,
        },
{
    match info {
        Some(i) => {
            let mut name = i.model.clone();
            name.append(" (");
            name.append(i.make.as_str());
            name.append(")");
            Some(name)
        },
        None => None,
    }
}

/// The identifier of the monitor in a report, 0 without one.
pub open spec fn identifier_of(info: Option<OutputSnapshot>) -> u32 {
    match info {
        Some(i) => i.id,
        None => 0,
    }
}

/// The identifier of the monitor in a report, 0 without one.
pub fn native_identifier_from_info(info: &Option<OutputSnapshot>) -> (id: u32)
    ensures
        id == identifier_of(*info),
{
    match info {
        Some(i) => i.id,
        None => 0,
    }
}

/// The size of the first current mode in `modes`, zero when no mode is current.
pub fn current_mode_size(modes: &Vec<OutputMode>) -> (size: PhysicalSize)
    ensures
        is_current_size(modes@, size),
{
    let mut i: usize = 0;
    while i < modes.len()
        invariant
            i <= modes.len(),
            forall|j: int| 0 <= j < i ==> !(#[trigger] modes@[j]).is_current,
        decreases modes.len() - i,
    {
        if modes[i].is_current {
            let m = modes[i];
            let size = PhysicalSize { width: m.width as u32, height: m.height as u32 };
            assert(modes@[i as int].is_current);
            return size;
        }
        i = i + 1;
    }
    PhysicalSize { width: 0, height: 0 }
}

/// The size of the monitor in a report: that of its current mode, zero
/// without a report or a current mode.
pub fn size_from_info(info: &Option<OutputSnapshot>) -> (size: PhysicalSize)
    ensures
        match info {
            Some(i) => is_current_size(i.modes@, size),
            None => size == PhysicalSize { width: 0, height: 0 },
        },
{
    match info {
        Some(i) => current_mode_size(&i.modes),
        None => PhysicalSize { width: 0, height: 0 },
    }
}

/// The position of the monitor in a report, the origin without one.
pub fn position_from_info(info: &Option<OutputSnapshot>) -> (position: PhysicalPosition)
    ensures
        position == match info {
            Some(i) => i.location,
            None => PhysicalPosition { x: 0, y: 0 },
        },
{
    match info {
        Some(i) => i.location,
        None => PhysicalPosition { x: 0, y: 0 },
    }
}

/// The scale factor of the monitor in a report, 1 without one.
pub fn scale_factor_from_info(info: &Option<OutputSnapshot>) -> (scale: i32)
    ensures
        scale == match info {
            Some(i) => i.scale_factor,
            None => 1,
        },
{
    match info {
        Some(i) => i.scale_factor,
        None => 1,
    }
}

/// A handle to a monitor.
pub struct MonitorHandle {
    handle: OutputHandle,
}

/// A monitor for a clone of `output`.
fn monitor_of(output: &WlOutput) -> (monitor: MonitorHandle)
    ensures
        monitor.cloned_from() == *output,
{
    MonitorHandle { handle: clone_output(output) }
}

impl MonitorHandle {
    /// The output handle this monitor holds.
    pub closed spec fn held(self) -> WlOutput {
        self.handle.held()
    }

    /// The output handle that the one held was cloned from.
    pub closed spec fn cloned_from(self) -> WlOutput {
        self.handle.source()
    }

    /// The output handle this monitor holds, to read the compositor's report about it.
    pub fn output(&self) -> (output: &WlOutput)
        ensures
            *output == self.held(),
    {
        self.handle.output()
    }
}

impl Clone for MonitorHandle {
    fn clone(&self) -> (copy: Self)
        ensures
            copy.cloned_from() == self.held(),
    {
        monitor_of(self.output())
    }
}

/// What a report says about its monitor: its name, identifier, size,
/// position and scale factor, each as the `*_from_info` function reads it.
pub fn describe_from_info(info: &Option<OutputSnapshot>) -> (description: MonitorDescription)
    ensures
        match *info {
            Some(i) => description.name matches Some(n) && n@ == monitor_name_spec(i.model@, i.make@),
            None => description.name is None,
        },
        description.native_identifier == identifier_of(*info),
        match *info {
            Some(i) => is_current_size(i.modes@, description.size),
            None => description.size == PhysicalSize { width: 0, height: 0 },
        },
        description.position == match *info {
            Some(i) => i.location,
            None => PhysicalPosition { x: 0, y: 0 },
        },
        description.scale_factor == match *info {
            Some(i) => i.scale_factor,
            None => 1,
        },
{
    MonitorDescription {
        name: name_from_info(info),
        native_identifier: native_identifier_from_info(info),
        size: size_from_info(info),
        position: position_from_info(info),
        scale_factor: scale_factor_from_info(info),
    }
}

/// Whether two reports are of the same monitor: monitors are told apart by
/// their identifier alone.
pub fn identifiers_equal(a: &Option<OutputSnapshot>, b: &Option<OutputSnapshot>) -> (same: bool)
    ensures
        same == (identifier_of(*a) == identifier_of(*b)),
{
    native_identifier_from_info(a) == native_identifier_from_info(b)
}

/// The order of two monitors: the order of their identifiers.
pub fn compare_identifiers(a: &Option<OutputSnapshot>, b: &Option<OutputSnapshot>) -> (order: std::cmp::Ordering)
    ensures
        (order == std::cmp::Ordering::Less) == (identifier_of(*a) < identifier_of(*b)),
        (order == std::cmp::Ordering::Equal) == (identifier_of(*a) == identifier_of(*b)),
        (order == std::cmp::Ordering::Greater) == (identifier_of(*a) > identifier_of(*b)),
{
    let x = native_identifier_from_info(a);
    let y = native_identifier_from_info(b);
    if x < y {
        std::cmp::Ordering::Less
    } else if x == y {
        std::cmp::Ordering::Equal
    } else {
        std::cmp::Ordering::Greater
    }
}

/// What a monitor reports about itself.
#[derive(Clone, Debug)]
pub struct MonitorDescription {
    pub name: Option<String>,
    pub native_identifier: u32,
    pub size: PhysicalSize,
    pub position: PhysicalPosition,
    pub scale_factor: i32,
}

/// A video mode of a monitor.
pub struct VideoMode {
    size: PhysicalSize,
    bit_depth: u16,
    refresh_rate_millihertz: i32,
    monitor: MonitorHandle,
}

impl VideoMode {
    pub closed spec fn size_spec(self) -> PhysicalSize {
        self.size
    }

    pub closed spec fn refresh_spec(self) -> i32 {
        self.refresh_rate_millihertz
    }

    pub closed spec fn bit_depth_spec(self) -> u16 {
        self.bit_depth
    }

    pub closed spec fn monitor_spec(self) -> MonitorHandle {
        self.monitor
    }

    pub fn size(&self) -> (size: PhysicalSize)
        ensures
            size == self.size_spec(),
    {
        self.size
    }

    pub fn bit_depth(&self) -> (depth: u16)
        ensures
            depth == self.bit_depth_spec(),
    {
        self.bit_depth
    }

    /// The refresh rate, in millihertz.
    pub fn refresh_rate_millihertz(&self) -> (rate: i32)
        ensures
            rate == self.refresh_spec(),
    {
        self.refresh_rate_millihertz
    }

    /// The monitor this mode belongs to.
    pub fn monitor(&self) -> (monitor: MonitorHandle)
        ensures
            monitor.cloned_from() == self.monitor_spec().held(),
    {
        self.monitor.clone()
    }
}

impl Clone for VideoMode {
    fn clone(&self) -> (copy: Self)
        ensures
            copy.size_spec() == self.size_spec(),
            copy.bit_depth_spec() == self.bit_depth_spec(),
            copy.refresh_spec() == self.refresh_spec(),
            copy.monitor_spec().cloned_from() == self.monitor_spec().held(),
    {
        VideoMode {
            size: self.size,
            bit_depth: self.bit_depth,
            refresh_rate_millihertz: self.refresh_rate_millihertz,
            monitor: self.monitor.clone(),
        }
    }
}

/// The video modes of `monitor` in a report: one per reported mode, in order,
/// with its dimensions read as unsigned numbers, its refresh rate and a depth of 32 bits.
pub fn video_modes_from_info(monitor: &MonitorHandle, info: &Option<OutputSnapshot>) -> (modes: Vec<VideoMode>)
    ensures
        match info {
            Some(i) => modes@.len() == i.modes@.len() && forall|k: int|
                0 <= k < modes@.len() ==> (#[trigger] modes@[k]).size_spec() == mode_size(i.modes@[k])
                    && modes@[k].refresh_spec() == i.modes@[k].refresh_rate,
            None => modes@.len() == 0,
        },
        forall|k: int|
            0 <= k < modes@.len() ==> (#[trigger] modes@[k]).bit_depth_spec() == 32
                && modes@[k].monitor_spec().cloned_from() == monitor.held(),
{
    let mut modes: Vec<VideoMode> = Vec::new();
    match info {
        Some(i) => {
            let mut k: usize = 0;
            while k < i.modes.len()
                invariant
                    k <= i.modes.len(),
                    modes@.len() == k,
                    forall|j: int|
                        0 <= j < k ==> (#[trigger] modes@[j]).size_spec() == mode_size(i.modes@[j])
                            && modes@[j].refresh_spec() == i.modes@[j].refresh_rate
                            && modes@[j].bit_depth_spec() == 32 && modes@[j].monitor_spec().cloned_from()
                            == monitor.held(),
                decreases i.modes.len() - k,
            {
                let m = i.modes[k];
                modes.push(
                    VideoMode {
                        size: PhysicalSize { width: m.width as u32, height: m.height as u32 },
                        bit_depth: 32,
                        refresh_rate_millihertz: m.refresh_rate,
                        monitor: monitor.clone(),
                    },
                );
                k = k + 1;
            }
        },
        None => {},
    }
    modes
}

/// The first output, as a monitor. There must be one.
pub fn primary_monitor(outputs: &Vec<WlOutput>) -> (monitor: MonitorHandle)
    requires
        outputs@.len() > 0,
    ensures
        monitor.cloned_from() == outputs@[0],
{
    monitor_of(&outputs[0])
}

/// Every output, as a monitor, in order.
pub fn available_monitors(outputs: &Vec<WlOutput>) -> (monitors: VecDeque<MonitorHandle>)
    ensures
        monitors@.len() == outputs@.len(),
        forall|i: int| 0 <= i < outputs@.len() ==> (#[trigger] monitors@[i]).cloned_from() == outputs@[i],
{
    let mut monitors: VecDeque<MonitorHandle> = VecDeque::new();
    let mut i: usize = 0;
    while i < outputs.len()
        invariant
            i <= outputs.len(),
            monitors@.len() == i,
            forall|j: int| 0 <= j < i ==> (#[trigger] monitors@[j]).cloned_from() == outputs@[j],
        decreases outputs.len() - i,
    {
        monitors.push_back(monitor_of(&outputs[i]));
        i = i + 1;
    }
    monitors
}


/// The primary monitor is the first of the available monitors.
pub proof fn lemma_primary_is_first_available(
    outputs: Seq<WlOutput>,
    primary: MonitorHandle,
    available: Seq<MonitorHandle>,
)
    requires
        outputs.len() > 0,
        primary.cloned_from() == outputs[0],
        available.len() == outputs.len(),
        forall|i: int| 0 <= i < outputs.len() ==> (#[trigger] available[i]).cloned_from() == outputs[i],
    ensures
        available.len() > 0,
        primary.cloned_from() == available[0].cloned_from(),
{
}

} // verus!
