//! Physical-device selection and queue-family resolution.
//!
//! The driver reports a table of queue families per device; the bootstrap
//! must pick one device and the family indices that jointly satisfy two
//! independent requirements: graphics capability and presentation support,
//! which may resolve to the same index or to different ones. Device choice
//! is deliberately naive — the first enumerated device — with no scoring of
//! discrete versus integrated hardware.

use vstd::prelude::*;

use crate::error::ContextError;

verus! {

/// Bit set in a family's `queue_flags` when it can execute graphics
/// commands. The value follows the driver's flag numbering so the boundary
/// layer can pass flags through unchanged.
pub const QUEUE_GRAPHICS: u32 = 1;

/// What the driver reports of one queue family, joined with the result of
/// the surface-support query for that family's index.
#[derive(Clone, Copy, Debug, PartialEq, Eq, Structural)]
pub struct QueueFamily {
    /// Number of queues in the family.
    pub queue_count: u32,
    /// Capability flag bits of the family.
    pub queue_flags: u32,
    /// Whether a surface-support query against the target surface returned
    /// true for this family.
    pub surface_support: bool,
}

/// The pair of queue-family indices the bootstrap needs, each either
/// unresolved or a concrete index into the device's family table. Both must
/// be resolved before logical-device creation proceeds.
#[derive(Clone, Copy, Debug, PartialEq, Eq)]
pub struct QueueFamilyIndices {
    /// First family able to execute graphics commands.
    pub graphics: Option<u32>,
    /// First family able to present to the target surface.
    pub present: Option<u32>,
}

/// A family satisfies the graphics requirement when it has at least one
/// queue and its flags include graphics capability.
pub open spec fn is_graphics_family(f: QueueFamily) -> bool {
    f.queue_count > 0 && f.queue_flags & QUEUE_GRAPHICS == QUEUE_GRAPHICS
}

/// A family satisfies the presentation requirement when the surface-support
/// query returned true for it.
pub open spec fn is_present_family(f: QueueFamily) -> bool {
    f.surface_support
}

pub open spec fn has_graphics_family(families: Seq<QueueFamily>) -> bool {
    exists|j: int| 0 <= j < families.len() && is_graphics_family(families[j])
}

pub open spec fn has_present_family(families: Seq<QueueFamily>) -> bool {
    exists|j: int| 0 <= j < families.len() && is_present_family(families[j])
}

/// `r` holds, for each requirement, the first index of the table that
/// satisfies it, or nothing when no index does.
pub open spec fn resolved_indices(families: Seq<QueueFamily>, r: QueueFamilyIndices) -> bool {
    &&& match r.graphics {
        Some(g) => {
            &&& g < families.len()
            &&& is_graphics_family(families[g as int])
            &&& forall|j: int| 0 <= j < g ==> !is_graphics_family(families[j])
        },
        None => forall|j: int| 0 <= j < families.len() ==> !is_graphics_family(families[j]),
    }
    &&& match r.present {
        Some(p) => {
            &&& p < families.len()
            &&& is_present_family(families[p as int])
            &&& forall|j: int| 0 <= j < p ==> !is_present_family(families[j])
        },
        None => forall|j: int| 0 <= j < families.len() ==> !is_present_family(families[j]),
    }
}

/// Scans the family table once per requirement, in enumeration order, and
/// records the first index satisfying each. The two scans are independent:
/// graphics and present may resolve to the same or to different indices.
pub fn resolve_queue_families(families: &Vec<QueueFamily>) -> (r: QueueFamilyIndices)
    requires
        families@.len() <= u32::MAX,
    ensures
        resolved_indices(families@, r),
{
    let mut graphics: Option<u32> = None;
    let mut present: Option<u32> = None;
    let n = families.len();
    let mut i: usize = 0;
    while i < n
        invariant
            n == families@.len(),
            n <= u32::MAX,
            i <= n,
            match graphics {
                Some(g) => {
                    &&& g < i
                    &&& is_graphics_family(families@[g as int])
                    &&& forall|j: int| 0 <= j < g ==> !is_graphics_family(families@[j])
                },
                None => forall|j: int| 0 <= j < i ==> !is_graphics_family(families@[j]),
            },
            match present {
                Some(p) => {
                    &&& p < i
                    &&& is_present_family(families@[p as int])
                    &&& forall|j: int| 0 <= j < p ==> !is_present_family(families@[j])
                },
                None => forall|j: int| 0 <= j < i ==> !is_present_family(families@[j]),
            },
        decreases n - i,
    {
        let f = families[i];
        if graphics.is_none() && f.queue_count > 0 && f.queue_flags & QUEUE_GRAPHICS == QUEUE_GRAPHICS {
            graphics = Some(i as u32);
        }
        if present.is_none() && f.surface_support {
            present = Some(i as u32);
        }
        i = i + 1;
    }
    QueueFamilyIndices { graphics, present }
}

/// Picks the physical device: the first enumerated one, or `NoDeviceFound`
/// when the driver reported none.
pub fn pick_physical_device(devices: &Vec<u64>) -> (r: Result<u64, ContextError>)
    ensures
        devices@.len() == 0 ==> r == Err::<u64, ContextError>(ContextError::NoDeviceFound),
        devices@.len() > 0 ==> r == Ok::<u64, ContextError>(devices@[0]),
{
    if devices.len() == 0 {
        Err(ContextError::NoDeviceFound)
    } else {
        Ok(devices[0])
    }
}

/// Device selection: the first enumerated device together with the resolved
/// queue-family indices of its family table. Fails with `NoDeviceFound` on
/// an empty device list and with `IncompleteQueueFamilies` when either
/// requirement resolves to no family at all.
pub fn select(devices: &Vec<u64>, families: &Vec<QueueFamily>) -> (r: Result<
    (u64, QueueFamilyIndices),
    ContextError,
>)
    requires
        families@.len() <= u32::MAX,
    ensures
        devices@.len() == 0 ==> r == Err::<(u64, QueueFamilyIndices), ContextError>(
            ContextError::NoDeviceFound,
        ),
        devices@.len() > 0 && !(has_graphics_family(families@) && has_present_family(families@))
            ==> r == Err::<(u64, QueueFamilyIndices), ContextError>(
            ContextError::IncompleteQueueFamilies,
        ),
        devices@.len() > 0 && has_graphics_family(families@) && has_present_family(families@)
            ==> (r matches Ok(p) && p.0 == devices@[0] && p.1.graphics is Some
            && p.1.present is Some && resolved_indices(families@, p.1)),
{
    if devices.len() == 0 {
        return Err(ContextError::NoDeviceFound);
    }
    let indices = resolve_queue_families(families);
    match (indices.graphics, indices.present) {
        (Some(_), Some(_)) => Ok((devices[0], indices)),
        _ => Err(ContextError::IncompleteQueueFamilies),
    }
}

/// The name of the device-level extension that provides swap-chain
/// support, as the driver spells it: the ASCII bytes of
/// `VK_KHR_swapchain`.
pub open spec fn swapchain_extension_bytes() -> Seq<u8> {
    seq![
        86u8, 75u8, 95u8, 75u8, 72u8, 82u8, 95u8, 115u8, 119u8, 97u8, 112u8, 99u8, 104u8, 97u8,
        105u8, 110u8,
    ]
}

/// The swap-chain extension name as a byte string, for the logical-device
/// configuration.
pub fn swapchain_extension_name() -> (r: Vec<u8>)
    ensures
        r@ == swapchain_extension_bytes(),
{
    let mut name: Vec<u8> = Vec::new();
    name.push(86);
    name.push(75);
    name.push(95);
    name.push(75);
    name.push(72);
    name.push(82);
    name.push(95);
    name.push(115);
    name.push(119);
    name.push(97);
    name.push(112);
    name.push(99);
    name.push(104);
    name.push(97);
    name.push(105);
    name.push(110);
    proof {
        assert(name@ =~= swapchain_extension_bytes());
    }
    name
}

/// Everything logical-device creation takes: one queue per distinct
/// required family index, and the device-level extensions to enable. Every
/// queue is created at full priority, and the physical device's full
/// reported feature set is enabled unmodified.
pub struct LogicalDeviceConfig {
    /// The distinct queue family indices to create one queue from each:
    /// the graphics index, followed by the present index when it differs.
    pub queue_family_indices: Vec<u32>,
    /// Device-level extension names to enable: swap-chain support at
    /// minimum.
    pub extensions: Vec<Vec<u8>>,
}

/// Builds the logical-device configuration from resolved queue-family
/// indices. Fails with `IncompleteQueueFamilies` when either index is
/// still unresolved: creation must not proceed on a partial resolution.
pub fn logical_device_config(indices: &QueueFamilyIndices) -> (r: Result<
    LogicalDeviceConfig,
    ContextError,
>)
    ensures
        match (indices.graphics, indices.present) {
            (Some(g), Some(p)) => r matches Ok(c) && c.extensions@.len() == 1
                && c.extensions@[0]@ == swapchain_extension_bytes() && (g == p
                ==> c.queue_family_indices@ == seq![g]) && (g != p ==> c.queue_family_indices@
                == seq![g, p]),
            _ => r matches Err(e) && e == ContextError::IncompleteQueueFamilies,
        },
{
    match (indices.graphics, indices.present) {
        (Some(g), Some(p)) => {
            let mut queue_family_indices: Vec<u32> = Vec::new();
            queue_family_indices.push(g);
            if p != g {
                queue_family_indices.push(p);
            }
            let mut extensions: Vec<Vec<u8>> = Vec::new();
            extensions.push(swapchain_extension_name());
            proof {
                if g == p {
                    assert(queue_family_indices@ =~= seq![g]);
                } else {
                    assert(queue_family_indices@ =~= seq![g, p]);
                }
            }
            Ok(LogicalDeviceConfig { queue_family_indices, extensions })
        },
        _ => Err(ContextError::IncompleteQueueFamilies),
    }
}

/// Maps the driver's answer to logical-device creation onto the error
/// taxonomy: a rejected configuration is `DeviceCreationFailed`.
pub fn device_from_driver(outcome: Option<u64>) -> (r: Result<u64, ContextError>)
    ensures
        match outcome {
            Some(h) => r == Ok::<u64, ContextError>(h),
            None => r == Err::<u64, ContextError>(ContextError::DeviceCreationFailed),
        },
{
    match outcome {
        Some(h) => Ok(h),
        None => Err(ContextError::DeviceCreationFailed),
    }
}

} // verus!
