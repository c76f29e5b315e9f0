//! Resource and machine configuration types for managed effects.
use vstd::prelude::*;

use crate::engine::empty_implementations::Metadataless;
use crate::engine::os::OsImageFileType;
use crate::engine::os::SupportedOs;

verus! {

/// Disk image or block-device configuration for an effect.
#[derive(Debug, PartialEq, Eq, Hash, PartialOrd, Ord)]
pub struct StorageConfigurationDisk {
    /// Provider-local storage identifier.
    pub id: String,
    /// Host path to the disk.
    pub path: String,
    /// Requested or observed disk size, in bytes.
    pub size: u64,
    /// Whether this disk is bootable.
    pub bootable: bool,
}

impl Clone for StorageConfigurationDisk {
    fn clone(&self) -> (r: Self)
        ensures
            r == *self,
    {
        StorageConfigurationDisk {
            id: self.id.clone(),
            path: self.path.clone(),
            size: self.size,
            bootable: self.bootable,
        }
    }
}

/// ISO image configuration for an effect.
#[derive(Debug, PartialEq, Eq)]
pub struct StorageConfigurationIso {
    /// Provider-local storage identifier.
    pub id: String,
    /// Host path to the ISO.
    pub path: String,
    /// Whether this ISO should be attached as bootable media.
    pub bootable: bool,
}

impl Clone for StorageConfigurationIso {
    fn clone(&self) -> (r: Self)
        ensures
            r == *self,
    {
        StorageConfigurationIso {
            id: self.id.clone(),
            path: self.path.clone(),
            bootable: self.bootable,
        }
    }
}

/// Cloud image configuration for an effect.
#[derive(Debug, PartialEq, Eq)]
pub struct StorageConfigurationCloudImage {
    /// Provider-local image identifier.
    pub id: String,
    /// Host path to the cloud image.
    pub path: String,
    /// Operating system represented by this image.
    pub os: SupportedOs,
    /// Image file format.
    pub os_type: OsImageFileType,
}

impl Clone for StorageConfigurationCloudImage {
    fn clone(&self) -> (r: Self)
        ensures
            r == *self,
    {
        StorageConfigurationCloudImage {
            id: self.id.clone(),
            path: self.path.clone(),
            os: self.os,
            os_type: self.os_type,
        }
    }
}

/// Network configuration for an effect.
#[derive(Clone, Copy, Debug, PartialEq, Eq, Structural)]
pub enum NetworkingConfiguration {
    /// User-mode networking.
    User,
}

/// Guest bootstrap mechanism.
#[derive(Clone, Copy, Debug, PartialEq, Eq, Structural)]
pub enum BootStrapMethod {
    /// Use cloud-init metadata.
    CloudInit,
    /// Do not run a bootstrap mechanism.
    NoBootstrap,
}

/// Resource constraints needed to turn metadata into provider-specific
/// configuration.
pub trait FxResourceConstraints {
    /// Metadata input type used to build provider configuration.
    type Metadata;

    /// Provider-specific storage configuration type.
    type FxStorageConfiguration;

    /// Provider-specific full configuration type.
    type FxConfiguration;

    /// Error returned when metadata cannot be converted into provider config.
    type FxConfigurationError;

    /// Converts metadata into provider-specific effect configuration.
    fn convert_from_metadata_to_fx_configuration(&self, mdt: Self::Metadata) -> Result<
        Self::FxConfiguration,
        Self::FxConfigurationError,
    >;

    /// Returns provider-specific storage configuration.
    fn storage_configurations(&self) -> Self::FxStorageConfiguration;
}

/// Empty resource-constraint implementation.
#[derive(Debug)]
pub struct ResourceConstraintless;

impl FxResourceConstraints for ResourceConstraintless {
    type Metadata = Metadataless;

    type FxStorageConfiguration = ();

    type FxConfiguration = ();

    type FxConfigurationError = core::convert::Infallible;

    fn convert_from_metadata_to_fx_configuration(&self, mdt: Self::Metadata) -> (r: Result<
        Self::FxConfiguration,
        Self::FxConfigurationError,
    >)
        ensures
            r is Ok,
    {
        Ok(())
    }

    fn storage_configurations(&self) -> Self::FxStorageConfiguration {
    }
}

} // verus!
