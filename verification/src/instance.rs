//! Configuring an instance, and turning what the driver enumerates into
//! connecters.

use vstd::prelude::*;

use crate::error::{non_empty, NxError, NxResult};
use crate::native::{
    debug_utils_extension, debug_utils_name, message_general, message_performance,
    message_validation, severity_error, severity_info, severity_warning, MESSAGE_GENERAL,
    MESSAGE_PERFORMANCE, MESSAGE_VALIDATION, SEVERITY_ERROR, SEVERITY_INFO, SEVERITY_WARNING,
};

verus! {

/// A feature that devices created from an instance must enable.
#[derive(Clone, Copy, Debug, PartialEq, Eq)]
pub enum DeviceFeature {
    /// Presenting images to a surface.
    Swapchain,
}

/// A copyable reference to a physical device.  It owns nothing.
#[derive(Clone, Copy, Debug, PartialEq, Eq)]
pub struct DeviceConnecter(pub ash::vk::PhysicalDevice);

/// Represents an additional feature of the instance.
pub struct InstanceFeature {
    /// Names of the instance extensions to enable, in the order they were
    /// asked for.
    pub extensions: Vec<String>,
    /// Features that devices of the instance must enable.
    pub device_exts: Vec<DeviceFeature>,
}

impl InstanceFeature {
    /// Empty InstanceFeature, no additional functionality.
    pub fn empty() -> (feature: Self)
        ensures
            feature.extensions@ == Seq::<String>::empty(),
            feature.device_exts@ == Seq::<DeviceFeature>::empty(),
    {
        InstanceFeature { extensions: Vec::new(), device_exts: Vec::new() }
    }

    /// Allows surfaces to be created.
    ///
    /// `required` is what the window system answered when asked which
    /// instance extensions a surface on its display needs.  On success those
    /// names are appended, in order, and the swapchain becomes a required
    /// device feature.  On failure the native code is surfaced and nothing
    /// changes.
    pub fn use_surface(&mut self, required: Result<Vec<String>, ash::vk::Result>) -> (outcome:
        NxResult<()>)
        ensures
            match required {
                Ok(names) => {
                    &&& outcome == Ok::<(), NxError>(())
                    &&& final(self).extensions@ == old(self).extensions@ + names@
                    &&& final(self).device_exts@ == old(self).device_exts@.push(
                        DeviceFeature::Swapchain,
                    )
                },
                Err(code) => {
                    &&& outcome == Err::<(), NxError>(NxError::InternalError(code))
                    &&& *final(self) == *old(self)
                },
            },
    {
        match required {
            Ok(names) => {
                let mut names = names;
                self.extensions.append(&mut names);
                self.device_exts.push(DeviceFeature::Swapchain);
                Ok(())
            },
            Err(code) => Err(NxError::InternalError(code)),
        }
    }
}

impl Default for InstanceFeature {
    fn default() -> (feature: Self)
        ensures
            feature.extensions@ == Seq::<String>::empty(),
            feature.device_exts@ == Seq::<DeviceFeature>::empty(),
    {
        InstanceFeature::empty()
    }
}

/// Severities of the messages an instance reports: errors, warnings and
/// informational messages.
pub open spec fn messenger_severity() -> u32 {
    SEVERITY_ERROR | SEVERITY_WARNING | SEVERITY_INFO
}

/// Kinds of the messages an instance reports: general, validation and
/// performance messages.
pub open spec fn messenger_types() -> u32 {
    MESSAGE_GENERAL | MESSAGE_VALIDATION | MESSAGE_PERFORMANCE
}

/// The two masks as numbers.
pub proof fn lemma_messenger_masks()
    ensures
        messenger_severity() == 0x1110,
        messenger_types() == 0x7,
{
    assert(0x1000u32 | 0x100u32 | 0x10u32 == 0x1110u32) by (bit_vector);
    assert(0x1u32 | 0x2u32 | 0x4u32 == 0x7u32) by (bit_vector);
}

/// Everything an instance is created with.
pub struct InstanceCreateParams {
    /// Names of the instance extensions to enable.
    pub extensions: Vec<String>,
    /// Features that devices of the instance must enable.
    pub device_exts: Vec<DeviceFeature>,
    /// Raw `VkDebugUtilsMessageSeverityFlagsEXT` of the messenger.
    pub message_severity: u32,
    /// Raw `VkDebugUtilsMessageTypeFlagsEXT` of the messenger.
    pub message_type: u32,
}

/// Object that allows building instances.
pub struct InstanceBuilder {
    pub feature: InstanceFeature,
}

impl InstanceBuilder {
    /// Initializes a new builder with default values.
    pub fn new() -> (builder: Self)
        ensures
            builder.feature.extensions@ == Seq::<String>::empty(),
            builder.feature.device_exts@ == Seq::<DeviceFeature>::empty(),
    {
        InstanceBuilder { feature: InstanceFeature::default() }
    }

    /// Specifies the functionality used by the instance.
    pub fn feature(self, feature: InstanceFeature) -> (builder: Self)
        ensures
            builder.feature == feature,
    {
        InstanceBuilder { feature }
    }

    /// The values the instance is created with: the extensions of the
    /// feature followed by the debug-utils extension, the device features
    /// unchanged, and a messenger that reports errors, warnings and
    /// informational messages of every type.
    pub fn create_params(self) -> (params: InstanceCreateParams)
        ensures
            params.extensions@.len() == self.feature.extensions@.len() + 1,
            params.extensions@.drop_last() == self.feature.extensions@,
            params.extensions@.last()@ == debug_utils_name(),
            params.device_exts@ == self.feature.device_exts@,
            params.message_severity == messenger_severity(),
            params.message_type == messenger_types(),
    {
        let InstanceFeature { extensions, device_exts } = self.feature;
        let mut extensions = extensions;
        extensions.push(debug_utils_extension());
        InstanceCreateParams {
            extensions,
            device_exts,
            message_severity: severity_error() | severity_warning() | severity_info(),
            message_type: message_general() | message_validation() | message_performance(),
        }
    }
}

/// The connecters that stand for a list of physical devices, one for each
/// device and in the same order.
pub open spec fn connecters_of(devices: Seq<ash::vk::PhysicalDevice>) -> Seq<DeviceConnecter> {
    devices.map_values(|device: ash::vk::PhysicalDevice| DeviceConnecter(device))
}

/// Turns the driver's answer to an enumeration of physical devices into
/// connecters.  A native failure is surfaced with its code; an empty list is
/// the "no value" failure; otherwise every device gets its connecter.
pub fn enumerate_connecters(
    found: Result<Vec<ash::vk::PhysicalDevice>, ash::vk::Result>,
) -> (connecters: NxResult<Vec<DeviceConnecter>>)
    ensures
        match found {
            Err(code) => connecters == Err::<Vec<DeviceConnecter>, NxError>(
                NxError::InternalError(code),
            ),
            Ok(devices) => if devices@.len() == 0 {
                connecters == Err::<Vec<DeviceConnecter>, NxError>(NxError::NoValue)
            } else {
                connecters matches Ok(list) && list@ == connecters_of(devices@)
            },
        },
{
    match found {
        Err(code) => Err(NxError::InternalError(code)),
        Ok(devices) => {
            let mut list: Vec<DeviceConnecter> = Vec::new();
            let mut at: usize = 0;
            while at < devices.len()
                invariant
                    at <= devices@.len(),
                    list@ == connecters_of(devices@.take(at as int)),
                decreases devices@.len() - at,
            {
                list.push(DeviceConnecter(devices[at]));
                proof {
                    assert(devices@.take(at + 1) == devices@.take(at as int).push(devices@[at as int]));
                }
                at += 1;
            }
            proof {
                assert(devices@.take(at as int) == devices@);
            }
            non_empty(list)
        },
    }
}

/// Get the first connector.
///
/// Only for an enumeration that succeeded and found a device; prefer
/// [`enumerate_connecters`] and pick the appropriate connecter.
pub fn default_connector(
    found: Result<Vec<ash::vk::PhysicalDevice>, ash::vk::Result>,
) -> (connecter: DeviceConnecter)
    requires
        found matches Ok(devices) && devices@.len() > 0,
    ensures
        found matches Ok(devices) && connecter == DeviceConnecter(devices@[0]),
{
    match enumerate_connecters(found) {
        Ok(connecters) => connecters[0],
        Err(_) => unreached(),
    }
}

} // verus!
