//! Planning the driver connection: the instance-level layer and extension
//! sets.
//!
//! Connecting is a one-time, fail-fast step: the window system's required
//! presentation extensions are appended to any caller-specified diagnostic
//! extensions, and every requested layer and extension is checked against
//! the supported sets the driver reported before instance creation is
//! attempted. Names are byte strings, as the driver spells them.

use vstd::prelude::*;

use crate::error::ContextError;

verus! {

/// A name occurs in the list, compared byte for byte.
pub open spec fn name_listed(names: Seq<Vec<u8>>, name: Seq<u8>) -> bool {
    exists|i: int| 0 <= i < names.len() && names[i]@ == name
}

/// Every requested name occurs in the supported list.
pub open spec fn all_listed(requested: Seq<Vec<u8>>, supported: Seq<Vec<u8>>) -> bool {
    forall|i: int| 0 <= i < requested.len() ==> name_listed(supported, requested[i]@)
}

/// Byte-for-byte equality of two names.
fn bytes_eq(a: &Vec<u8>, b: &Vec<u8>) -> (r: bool)
    ensures
        r == (a@ == b@),
{
    if a.len() != b.len() {
        return false;
    }
    let n = a.len();
    let mut i: usize = 0;
    while i < n
        invariant
            n == a@.len(),
            a@.len() == b@.len(),
            i <= n,
            forall|j: int| 0 <= j < i ==> a@[j] == b@[j],
        decreases n - i,
    {
        if a[i] != b[i] {
            return false;
        }
        i = i + 1;
    }
    proof {
        assert(a@ =~= b@);
    }
    true
}

/// Whether the supported list carries the given name.
fn name_supported(supported: &Vec<Vec<u8>>, name: &Vec<u8>) -> (r: bool)
    ensures
        r == name_listed(supported@, name@),
{
    let n = supported.len();
    let mut i: usize = 0;
    while i < n
        invariant
            n == supported@.len(),
            i <= n,
            forall|j: int| 0 <= j < i ==> supported@[j]@ != name@,
        decreases n - i,
    {
        if bytes_eq(&supported[i], name) {
            return true;
        }
        i = i + 1;
    }
    false
}

/// Whether every requested name is in the supported list.
fn all_supported(requested: &Vec<Vec<u8>>, supported: &Vec<Vec<u8>>) -> (r: bool)
    ensures
        r == all_listed(requested@, supported@),
{
    let n = requested.len();
    let mut i: usize = 0;
    while i < n
        invariant
            n == requested@.len(),
            i <= n,
            forall|j: int| 0 <= j < i ==> name_listed(supported@, requested@[j]@),
        decreases n - i,
    {
        if !name_supported(supported, &requested[i]) {
            return false;
        }
        i = i + 1;
    }
    true
}

/// What instance creation will be asked for: the validated layer list and
/// the full extension list, diagnostic extensions first, then the window
/// system's required presentation extensions.
pub struct InstanceConfig {
    pub layers: Vec<Vec<u8>>,
    pub extensions: Vec<Vec<u8>>,
}

/// Plans the driver connection. Fails with `DriverUnavailable` when the
/// driver entry point could not be loaded, and with
/// `LayerOrExtensionUnsupported` when a requested layer, a diagnostic
/// extension or a window-required extension is absent from the supported
/// sets the driver reported. On success the configuration carries the
/// requested layers unchanged and the diagnostic extensions with the
/// window-required ones appended.
pub fn plan_connection(
    driver_loaded: bool,
    requested_layers: Vec<Vec<u8>>,
    diagnostic_extensions: Vec<Vec<u8>>,
    window_extensions: Vec<Vec<u8>>,
    supported_layers: &Vec<Vec<u8>>,
    supported_extensions: &Vec<Vec<u8>>,
) -> (r: Result<InstanceConfig, ContextError>)
    ensures
        !driver_loaded ==> (r matches Err(e) && e == ContextError::DriverUnavailable),
        driver_loaded && !(all_listed(requested_layers@, supported_layers@) && all_listed(
            diagnostic_extensions@,
            supported_extensions@,
        ) && all_listed(window_extensions@, supported_extensions@)) ==> (r matches Err(e) && e
            == ContextError::LayerOrExtensionUnsupported),
        driver_loaded && all_listed(requested_layers@, supported_layers@) && all_listed(
            diagnostic_extensions@,
            supported_extensions@,
        ) && all_listed(window_extensions@, supported_extensions@) ==> (r matches Ok(c)
            && c.layers@ == requested_layers@ && c.extensions@ == diagnostic_extensions@
            + window_extensions@),
{
    if !driver_loaded {
        return Err(ContextError::DriverUnavailable);
    }
    if !all_supported(&requested_layers, supported_layers) {
        return Err(ContextError::LayerOrExtensionUnsupported);
    }
    if !all_supported(&diagnostic_extensions, supported_extensions) {
        return Err(ContextError::LayerOrExtensionUnsupported);
    }
    if !all_supported(&window_extensions, supported_extensions) {
        return Err(ContextError::LayerOrExtensionUnsupported);
    }
    let mut extensions = diagnostic_extensions;
    let mut window_extensions = window_extensions;
    extensions.append(&mut window_extensions);
    Ok(InstanceConfig { layers: requested_layers, extensions })
}

} // verus!
