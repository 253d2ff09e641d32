//! The state of the GPU render context: the devices it created, which are
//! only ever appended, and the features and limits requested for the devices
//! it creates next, which may be changed only before the first device exists.

use vstd::prelude::*;

use crate::gpu::{features_subset, features_intersection, features_union, Features, CLEAR_TEXTURE_BIT};

verus! {

#[verifier::external_type_specification]
#[verifier::external_body]
pub struct ExLimits(wgpu::Limits);

/// Strategy for selecting the limits requested of a new device.
#[derive(Clone, Debug)]
pub enum WgpuLimits {
    /// The default limits.
    Default,
    /// The maximum limits that the selected adapter supports.
    Adapter,
    /// The given limits.
    Custom(Box<wgpu::Limits>),
}

impl Default for WgpuLimits {
    /// The default limits.
    fn default() -> (r: WgpuLimits)
        ensures
            r is Default,
    {
        WgpuLimits::Default
    }
}

/// `after` extends `before`: every device of `before` is still there, at the
/// same index, and any new devices come after them.
pub open spec fn devices_extend<D>(before: Seq<D>, after: Seq<D>) -> bool {
    before.len() <= after.len() && forall|i: int| 0 <= i < before.len() ==> after[i] == before[i]
}

/// The first index from `i` on at which `compatible` holds `true`, if any.
pub open spec fn first_compatible_from(compatible: Seq<bool>, i: int) -> Option<nat>
    decreases compatible.len() - i,
{
    if i < 0 || i >= compatible.len() {
        None
    } else if compatible[i] {
        Some(i as nat)
    } else {
        first_compatible_from(compatible, i + 1)
    }
}

/// The first index at which `compatible` holds `true`, if any.
pub open spec fn first_compatible(compatible: Seq<bool>) -> Option<nat> {
    first_compatible_from(compatible, 0)
}

/// The device to reuse among `devices`: with a surface, the first whose
/// adapter supports it (`compatible`, by index); without one, the first device.
pub open spec fn found_device<D>(devices: Seq<D>, compatible: Option<Seq<bool>>) -> Option<nat> {
    match compatible {
        Some(c) => first_compatible(c),
        None => if devices.len() == 0 {
            None
        } else {
            Some(0nat)
        },
    }
}

/// Finding or creating a device: the devices afterwards and the index chosen.
/// A device found is reused; otherwise the newly created device, when creating
/// one succeeded, is appended and chosen; otherwise there is none.
pub open spec fn device_lookup<D>(devices: Seq<D>, compatible: Option<Seq<bool>>, created: Option<D>) -> (
    Seq<D>,
    Option<nat>,
) {
    match found_device(devices, compatible) {
        Some(i) => (devices, Some(i)),
        None => match created {
            Some(d) => (devices.push(d), Some(devices.len())),
            None => (devices, None),
        },
    }
}

/// The limits requested of a new device under `strategy`, given the default
/// limits and the adapter's.
pub open spec fn limits_for(strategy: WgpuLimits, defaults: wgpu::Limits, adapter: wgpu::Limits) -> wgpu::Limits {
    match strategy {
        WgpuLimits::Default => defaults,
        WgpuLimits::Adapter => adapter,
        WgpuLimits::Custom(l) => *l,
    }
}

/// The limits requested of a device depend on the strategy alone, not on the
/// features requested: the default strategy gives the default limits whatever
/// the adapter supports, the adapter strategy gives exactly the adapter's, and
/// a custom strategy gives its own limits whatever the adapter supports.
pub proof fn lemma_limits_for(defaults: wgpu::Limits, a1: wgpu::Limits, a2: wgpu::Limits, custom: wgpu::Limits)
    ensures
        limits_for(WgpuLimits::Default, defaults, a1) == defaults,
        limits_for(WgpuLimits::Default, defaults, a1) == limits_for(WgpuLimits::Default, defaults, a2),
        limits_for(WgpuLimits::Adapter, defaults, a1) == a1,
        limits_for(WgpuLimits::Custom(Box::new(custom)), defaults, a1) == custom,
        limits_for(WgpuLimits::Custom(Box::new(custom)), defaults, a1) == limits_for(
            WgpuLimits::Custom(Box::new(custom)),
            defaults,
            a2,
        ),
{
}

/// Render context that keeps the GPU instance, the devices created so far,
/// and the features and limits to request of the next device.
pub struct RenderContext<I, D> {
    instance: I,
    devices: Vec<D>,
    requested_features: Features,
    requested_limits: WgpuLimits,
    default_limits: wgpu::Limits,
}

impl<I, D> RenderContext<I, D> {
    /// The GPU instance.
    pub closed spec fn instance_spec(&self) -> I {
        self.instance
    }

    /// The devices created so far, by index.
    pub closed spec fn devices_spec(&self) -> Seq<D> {
        self.devices@
    }

    /// The features that are requested of the next device.
    pub closed spec fn features_spec(&self) -> (u64, u64) {
        self.requested_features@
    }

    /// The default limits, taken from `wgpu::Limits::default()` when the
    /// context is made and the same for its whole life.
    pub closed spec fn default_limits_spec(&self) -> wgpu::Limits {
        self.default_limits
    }

    /// The limits strategy for the next device.
    pub closed spec fn limits_spec(&self) -> WgpuLimits {
        self.requested_limits
    }

    /// A context on `instance` with no devices, no requested features and the
    /// default limits.
    pub fn new(instance: I) -> (r: Self)
        ensures
            r.instance_spec() == instance,
            r.devices_spec().len() == 0,
            r.features_spec() == (0u64, 0u64),
            r.limits_spec() is Default,
    {
        RenderContext {
            instance,
            devices: Vec::new(),
            requested_features: Features::empty(),
            requested_limits: WgpuLimits::Default,
            default_limits: default_limits(),
        }
    }

    /// The GPU instance.
    pub fn instance(&self) -> (r: &I)
        ensures
            *r == self.instance_spec(),
    {
        &self.instance
    }

    /// The number of devices created so far.
    pub fn device_count(&self) -> (r: usize)
        ensures
            r == self.devices_spec().len(),
    {
        self.devices.len()
    }

    /// The device with index `id`.
    pub fn device(&self, id: usize) -> (r: &D)
        requires
            id < self.devices_spec().len(),
        ensures
            *r == self.devices_spec()[id as int],
    {
        &self.devices[id]
    }

    /// Sets the features and limits for devices created later. Refused, with
    /// nothing changed, once a device exists.
    pub fn set_wgpu_device_options(&mut self, features: Features, limits: WgpuLimits) -> (r: bool)
        ensures
            r == (old(self).devices_spec().len() == 0),
            final(self).devices_spec() == old(self).devices_spec(),
            final(self).instance_spec() == old(self).instance_spec(),
            final(self).default_limits_spec() == old(self).default_limits_spec(),
            r ==> final(self).features_spec() == features@ && final(self).limits_spec() == limits,
            !r ==> final(self).features_spec() == old(self).features_spec() && final(self).limits_spec()
                == old(self).limits_spec(),
    {
        if self.devices.len() != 0 {
            return false;
        }
        self.requested_features = features;
        self.requested_limits = limits;
        true
    }

    /// Adds features to those requested of devices created later. Refused,
    /// with nothing changed, once a device exists.
    pub fn add_wgpu_features(&mut self, features: Features) -> (r: bool)
        ensures
            r == (old(self).devices_spec().len() == 0),
            final(self).devices_spec() == old(self).devices_spec(),
            final(self).instance_spec() == old(self).instance_spec(),
            final(self).default_limits_spec() == old(self).default_limits_spec(),
            final(self).limits_spec() == old(self).limits_spec(),
            r ==> final(self).features_spec() == features_union(old(self).features_spec(), features@),
            !r ==> final(self).features_spec() == old(self).features_spec(),
    {
        if self.devices.len() != 0 {
            return false;
        }
        self.requested_features = self.requested_features.union(&features);
        true
    }

    /// Sets the limits strategy for devices created later. Refused, with
    /// nothing changed, once a device exists.
    pub fn set_wgpu_limits(&mut self, limits: WgpuLimits) -> (r: bool)
        ensures
            r == (old(self).devices_spec().len() == 0),
            final(self).devices_spec() == old(self).devices_spec(),
            final(self).instance_spec() == old(self).instance_spec(),
            final(self).default_limits_spec() == old(self).default_limits_spec(),
            final(self).features_spec() == old(self).features_spec(),
            r ==> final(self).limits_spec() == limits,
            !r ==> final(self).limits_spec() == old(self).limits_spec(),
    {
        if self.devices.len() != 0 {
            return false;
        }
        self.requested_limits = limits;
        true
    }

    /// Finds a device to reuse. With a surface, `compatible` tells for each
    /// device, by index, whether its adapter supports the surface, and the
    /// first such device is chosen. Without a surface, the first device is
    /// chosen. `None` means that a new device must be created.
    pub fn find_device(&self, compatible: Option<&Vec<bool>>) -> (r: Option<usize>)
        requires
            compatible matches Some(c) ==> c@.len() == self.devices_spec().len(),
        ensures
            compatible matches Some(c) ==> (match first_compatible(c@) {
                Some(i) => r == Some(i as usize),
                None => r is None,
            }),
            compatible is None ==> (if self.devices_spec().len() == 0 {
                r is None
            } else {
                r == Some(0usize)
            }),
            r matches Some(i) ==> i < self.devices_spec().len(),
            found_device(
                self.devices_spec(),
                match compatible {
                    Some(c) => Some(c@),
                    None => None,
                },
            ) == match r {
                Some(i) => Some(i as nat),
                None => None::<nat>,
            },
    {
        match compatible {
            Some(c) => {
                let mut i: usize = 0;
                while i < c.len()
                    invariant
                        compatible == Some(c),
                        c@.len() == self.devices_spec().len(),
                        i <= c@.len(),
                        first_compatible(c@) == first_compatible_from(c@, i as int),
                    decreases c.len() - i,
                {
                    if c[i] {
                        return Some(i);
                    }
                    i += 1;
                }
                None
            },
            None => {
                if self.devices.len() == 0 {
                    None
                } else {
                    Some(0)
                }
            },
        }
    }

    /// The features to request of a new device whose adapter supports
    /// `supported`: the requested features together with texture clearing,
    /// restricted to what the adapter supports.
    pub fn required_features(&self, supported: Features) -> (r: Features)
        ensures
            r@ == features_intersection(
                supported@,
                features_union((CLEAR_TEXTURE_BIT, 0u64), self.features_spec()),
            ),
    {
        let requested = Features::clear_texture().union(&self.requested_features);
        supported.intersection(&requested)
    }

    /// The limits to request of a new device whose adapter supports at most
    /// `adapter_limits`: the default limits, the adapter's, or the custom
    /// ones, as the limits strategy says.
    pub fn required_limits(&self, adapter_limits: wgpu::Limits) -> (r: wgpu::Limits)
        ensures
            self.limits_spec() is Adapter ==> r == adapter_limits,
            self.limits_spec() matches WgpuLimits::Custom(l) ==> r == *l,
            self.limits_spec() is Default ==> r == self.default_limits_spec(),
            r == limits_for(self.limits_spec(), self.default_limits_spec(), adapter_limits),
    {
        match &self.requested_limits {
            WgpuLimits::Default => clone_limits(&self.default_limits),
            WgpuLimits::Adapter => adapter_limits,
            WgpuLimits::Custom(limits) => clone_limits(limits),
        }
    }

    /// Adds a newly created device and returns its index, which stays valid
    /// for the lifetime of the context.
    pub fn add_device(&mut self, device: D) -> (id: usize)
        requires
            old(self).devices_spec().len() < usize::MAX,
        ensures
            final(self).devices_spec() == old(self).devices_spec().push(device),
            id == old(self).devices_spec().len(),
            final(self).instance_spec() == old(self).instance_spec(),
            final(self).default_limits_spec() == old(self).default_limits_spec(),
            final(self).features_spec() == old(self).features_spec(),
            final(self).limits_spec() == old(self).limits_spec(),
    {
        self.devices.push(device);
        self.devices.len() - 1
    }
}

impl<I, D> RenderContext<I, D> {
    /// Records the outcome of creating a device after `find_device` found
    /// none: the created device is appended and its index returned; when
    /// creation failed, nothing changes and there is no device.
    pub fn add_created_device(&mut self, created: Option<D>) -> (r: Option<usize>)
        requires
            old(self).devices_spec().len() < usize::MAX,
        ensures
            final(self).devices_spec() == match created {
                Some(d) => old(self).devices_spec().push(d),
                None => old(self).devices_spec(),
            },
            r == match created {
                Some(_) => Some(old(self).devices_spec().len() as usize),
                None => None::<usize>,
            },
            final(self).instance_spec() == old(self).instance_spec(),
            final(self).default_limits_spec() == old(self).default_limits_spec(),
            final(self).features_spec() == old(self).features_spec(),
            final(self).limits_spec() == old(self).limits_spec(),
    {
        match created {
            Some(d) => Some(self.add_device(d)),
            None => None,
        }
    }
}

impl<I, D> RenderContext<I, D> {
    /// Finds a device to reuse, as `find_device` does, or else records
    /// `created`, the outcome of creating one: the devices afterwards and the
    /// index chosen are those of `device_lookup`. `created` is not used when
    /// a device is found.
    pub fn settle_device(&mut self, compatible: Option<&Vec<bool>>, created: Option<D>) -> (r: Option<usize>)
        requires
            compatible matches Some(c) ==> c@.len() == old(self).devices_spec().len(),
            old(self).devices_spec().len() < usize::MAX,
        ensures
            (final(self).devices_spec(), match r {
                Some(i) => Some(i as nat),
                None => None::<nat>,
            }) == device_lookup(
                old(self).devices_spec(),
                match compatible {
                    Some(c) => Some(c@),
                    None => None,
                },
                created,
            ),
            final(self).instance_spec() == old(self).instance_spec(),
            final(self).default_limits_spec() == old(self).default_limits_spec(),
            final(self).features_spec() == old(self).features_spec(),
            final(self).limits_spec() == old(self).limits_spec(),
    {
        match self.find_device(compatible) {
            Some(i) => Some(i),
            None => self.add_created_device(created),
        }
    }
}

/// Wraps `wgpu::Limits::default`, the limits that every adapter supports.
/// Nothing is claimed of them.
#[verifier::external_body]
fn default_limits() -> wgpu::Limits {
    wgpu::Limits::default()
}

/// Wraps the derived `Clone` of `wgpu::Limits`, a structure of integer
/// fields: the clone equals the original.
#[verifier::external_body]
fn clone_limits(limits: &wgpu::Limits) -> (r: wgpu::Limits)
    ensures
        r == *limits,
{
    limits.clone()
}

/// Finding or creating a device keeps every existing device at its index,
/// adds at most one, and yields a valid index when it yields one; without a
/// surface an existing first device is reused and nothing is added.
pub proof fn lemma_device_lookup<D>(devices: Seq<D>, compatible: Option<Seq<bool>>, created: Option<D>)
    requires
        compatible matches Some(c) ==> c.len() == devices.len(),
    ensures
        devices_extend(devices, device_lookup(devices, compatible, created).0),
        device_lookup(devices, compatible, created).0.len() <= devices.len() + 1,
        device_lookup(devices, compatible, created).1 matches Some(i) ==> i < device_lookup(
            devices,
            compatible,
            created,
        ).0.len(),
        compatible is None && devices.len() > 0 ==> device_lookup(devices, compatible, created)
            == (devices, Some(0nat)),
{
    if let Some(c) = compatible {
        lemma_first_compatible_from(c, 0);
    }
}

/// The first compatible index from `i` on, when there is one, lies in range
/// and holds `true`.
pub proof fn lemma_first_compatible_from(c: Seq<bool>, i: int)
    ensures
        first_compatible_from(c, i) matches Some(k) ==> i <= k < c.len() && c[k as int],
    decreases c.len() - i,
{
    if 0 <= i < c.len() && !c[i] {
        lemma_first_compatible_from(c, i + 1);
    }
}

/// Devices are append-only: through any run of calls on a context, each of
/// which extends its devices, every device keeps its index.
pub proof fn lemma_devices_extend_chain<D>(a: Seq<D>, b: Seq<D>, c: Seq<D>)
    requires
        devices_extend(a, b),
        devices_extend(b, c),
    ensures
        devices_extend(a, c),
{
}

/// Each call on a context extends its devices: unchanged, or with one device
/// appended.
pub proof fn lemma_push_extends<D>(a: Seq<D>, d: D)
    ensures
        devices_extend(a, a),
        devices_extend(a, a.push(d)),
{
}

/// A device requested with the features that `required_features` computes
/// never asks for a feature that its adapter lacks.
pub proof fn lemma_required_within_supported(supported: (u64, u64), requested: (u64, u64))
    ensures
        features_subset(
            features_intersection(supported, features_union((CLEAR_TEXTURE_BIT, 0u64), requested)),
            supported,
        ),
{
    let a = supported.0;
    let b = (CLEAR_TEXTURE_BIT | requested.0);
    let c = supported.1;
    let d = (0u64 | requested.1);
    assert(((a & b) & a) == (a & b)) by (bit_vector);
    assert(((c & d) & c) == (c & d)) by (bit_vector);
}

} // verus!
