//! What `qemu-img` tells of an image.
use vstd::prelude::*;

verus! {

/// The result of `qemu-img check`.
#[derive(Clone, Debug, Default, PartialEq)]
pub struct QemuImgCheck {
    pub image_end_offset: i64,
    pub total_clusters: i64,
    pub check_errors: i64,
    pub filename: String,
    pub format: String,
}

/// The result of `qemu-img info`.
#[derive(Clone, Debug, Default, PartialEq)]
pub struct QemuImgInfo {
    pub children: Vec<Children>,
    pub virtual_size: i64,
    pub filename: String,
    pub cluster_size: Option<i64>,
    pub format: String,
    pub actual_size: Option<i64>,
    pub format_specific: Option<FormatSpecificRoot>,
    pub dirty_flag: Option<bool>,
}

impl QemuImgInfo {
    /// Whether the image was reported as corrupt.
    pub open spec fn corrupt(&self) -> bool {
        self.format_specific matches Some(format_specific) && format_specific.data.corrupt
    }

    /// Returns whether `qemu-img info` reported the image as corrupt.
    ///
    /// QEMU only reports this field for some formats, notably qcow2. Raw images
    /// and older QEMU versions may omit the whole format-specific part.
    pub fn is_corrupt(&self) -> (r: bool)
        ensures
            r == self.corrupt(),
    {
        match &self.format_specific {
            Some(format_specific) => format_specific.data.corrupt,
            None => false,
        }
    }
}

/// A named child node of an image.
#[derive(Clone, Debug, Default, PartialEq)]
pub struct Children {
    pub name: String,
    pub info: Info,
}

/// What is told of a child node.
#[derive(Clone, Debug, Default, PartialEq)]
pub struct Info {
    /// The children of the node, each as JSON text.
    pub children: Vec<String>,
    pub virtual_size: i64,
    pub filename: String,
    pub format: String,
    pub actual_size: Option<i64>,
    pub format_specific: Option<FormatSpecific>,
    pub dirty_flag: Option<bool>,
}

/// What only some formats tell of a child node.
#[derive(Clone, Debug, Default, PartialEq)]
pub struct FormatSpecific {
    pub type_field: String,
    pub data: Data,
}

/// Format-specific data of a child node.
#[derive(Clone, Copy, Debug, Default, PartialEq)]
pub struct Data {}

/// What only some formats tell of an image.
#[derive(Clone, Debug, Default, PartialEq)]
pub struct FormatSpecificRoot {
    pub type_field: String,
    pub data: Data2,
}

/// Format-specific data of an image.
#[derive(Clone, Debug, Default, PartialEq)]
pub struct Data2 {
    pub compat: String,
    pub compression_type: String,
    pub lazy_refcounts: bool,
    pub refcount_bits: Option<i64>,
    pub corrupt: bool,
    pub extended_l2: bool,
}

/// An image is corrupt exactly where that is reported of it; where nothing is
/// reported, it is not.
pub proof fn law_reported_corruption(info: QemuImgInfo)
    ensures
        info.format_specific is None ==> !info.corrupt(),
        info.format_specific is Some ==> info.corrupt() == info.format_specific->0.data.corrupt,
{
}

} // verus!
