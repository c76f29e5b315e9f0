//! Storage of virtual machines, and where it lies.
use vstd::prelude::*;

use crate::engine::machine_conf::StorageConfigurationCloudImage;
use crate::engine::machine_conf::StorageConfigurationDisk;
use crate::engine::machine_conf::StorageConfigurationIso;
use crate::engine::os::OsImageFileType;
use crate::engine::sys_conf::SystemConfiguration;
use crate::engine::sys_conf::SystemModel;
use crate::fx_id::FxId;
use crate::fx_id::FxIdModel;
use crate::fx_id::fx_id_text;
use crate::io_error::IoError;
use crate::path::file_name;
use crate::path::file_stem;
use crate::path::join_path;
use crate::path::path_file_name;
use crate::path::path_file_stem;
use crate::path::path_join;
use crate::qemu::storage_qcow::QEMU_IMG_FILE_EXIT_RAW;
use crate::qemu::storage_qcow::QEMU_IMG_FILE_EXT_QCOW2;
use crate::qemu::storage_qcow::QEMU_IMG_FORMAT_QCOW2;
use crate::qemu::storage_qcow::QEMU_IMG_FORMAT_RAW;
use crate::qemu::storage_qcow::QcowOptions;
use crate::text::cat3;
use crate::text::char_is_alphanumeric;
use crate::text::chars_of;
use crate::text::is_alphanumeric;
use crate::utils::CommandRanError;

verus! {

/// Errors of storage operations.
#[derive(Debug)]
pub enum QemuStorageCreateError {
    /// A filesystem operation failed.
    IO(IoError),
    /// The output of `qemu-img` could not be read.
    JsonParse(String),
    /// The image is corrupt.
    CorruptImage(String),
    /// `qemu-img` could not be run.
    CommandRanError(CommandRanError),
    /// The command on the file ran and exited with a failure.
    CommandFailed(&'static str, String),
    /// A file does not exist.
    FileNotFound(String),
    /// The storage does not allow the operation.
    UnsupportedStorage(&'static str),
}

/// The model of a storage error.
#[verifier::ext_equal]
pub enum StorageErrorModel {
    IO(IoError),
    JsonParse(Seq<char>),
    CorruptImage(Seq<char>),
    CommandRanError(CommandRanError),
    CommandFailed(Seq<char>, Seq<char>),
    FileNotFound(Seq<char>),
    UnsupportedStorage(Seq<char>),
}

impl View for QemuStorageCreateError {
    type V = StorageErrorModel;

    open spec fn view(&self) -> StorageErrorModel {
        match self {
            QemuStorageCreateError::IO(err) => StorageErrorModel::IO(*err),
            QemuStorageCreateError::JsonParse(message) => StorageErrorModel::JsonParse(message@),
            QemuStorageCreateError::CorruptImage(path) => StorageErrorModel::CorruptImage(path@),
            QemuStorageCreateError::CommandRanError(err) => StorageErrorModel::CommandRanError(*err),
            QemuStorageCreateError::CommandFailed(command, path) => StorageErrorModel::CommandFailed(
                command@,
                path@,
            ),
            QemuStorageCreateError::FileNotFound(path) => StorageErrorModel::FileNotFound(path@),
            QemuStorageCreateError::UnsupportedStorage(what) => StorageErrorModel::UnsupportedStorage(
                what@,
            ),
        }
    }
}

/// The models of a row of storage errors.
pub open spec fn storage_errors(v: Seq<QemuStorageCreateError>) -> Seq<StorageErrorModel> {
    Seq::new(v.len(), |i: int| v[i]@)
}

impl Clone for QemuStorageCreateError {
    fn clone(&self) -> (r: Self)
        ensures
            r == *self,
    {
        match self {
            QemuStorageCreateError::IO(err) => QemuStorageCreateError::IO(err.clone()),
            QemuStorageCreateError::JsonParse(message) => QemuStorageCreateError::JsonParse(
                message.clone(),
            ),
            QemuStorageCreateError::CorruptImage(path) => QemuStorageCreateError::CorruptImage(
                path.clone(),
            ),
            QemuStorageCreateError::CommandRanError(err) => QemuStorageCreateError::CommandRanError(
                err.clone(),
            ),
            QemuStorageCreateError::CommandFailed(command, path) => QemuStorageCreateError::CommandFailed(
                *command,
                path.clone(),
            ),
            QemuStorageCreateError::FileNotFound(path) => QemuStorageCreateError::FileNotFound(
                path.clone(),
            ),
            QemuStorageCreateError::UnsupportedStorage(what) => QemuStorageCreateError::UnsupportedStorage(
                *what,
            ),
        }
    }
}

/// Formats of file-backed disks.
#[derive(Clone, Copy, Debug, PartialEq, Eq, Structural)]
pub enum QemuQcowFormat {
    Raw,
    Qcow2,
}

/// Storage of a virtual machine.
#[derive(Debug, PartialEq, Eq)]
pub enum QemuStorageType {
    /// File-backed disks.
    Qcow2(Vec<(StorageConfigurationDisk, QemuQcowFormat, QcowOptions)>),
    /// Host block devices.
    HostBlock(Vec<StorageConfigurationDisk>),
    /// ISO images.
    Iso(Vec<StorageConfigurationIso>),
    /// Cloud images, each used through a writable overlay.
    CloudImage(Vec<(StorageConfigurationCloudImage, QcowOptions)>),
}

/// The model of storage.
#[verifier::ext_equal]
pub enum StorageModel {
    Qcow2(Seq<(StorageConfigurationDisk, QemuQcowFormat, QcowOptions)>),
    HostBlock(Seq<StorageConfigurationDisk>),
    Iso(Seq<StorageConfigurationIso>),
    CloudImage(Seq<(StorageConfigurationCloudImage, QcowOptions)>),
}

impl View for QemuStorageType {
    type V = StorageModel;

    open spec fn view(&self) -> StorageModel {
        match self {
            QemuStorageType::Qcow2(files) => StorageModel::Qcow2(files@),
            QemuStorageType::HostBlock(devices) => StorageModel::HostBlock(devices@),
            QemuStorageType::Iso(isos) => StorageModel::Iso(isos@),
            QemuStorageType::CloudImage(images) => StorageModel::CloudImage(images@),
        }
    }
}

/// The models of a row of storage.
pub open spec fn storages(v: Seq<QemuStorageType>) -> Seq<StorageModel> {
    Seq::new(v.len(), |i: int| v[i]@)
}

impl Clone for QemuStorageType {
    fn clone(&self) -> (r: Self)
        ensures
            r@ == self@,
    {
        match self {
            QemuStorageType::Qcow2(files) => {
                let mut v: Vec<(StorageConfigurationDisk, QemuQcowFormat, QcowOptions)> = Vec::new();
                for i in 0..files.len()
                    invariant
                        v@ == files@.take(i as int),
                {
                    v.push((files[i].0.clone(), files[i].1, files[i].2.clone()));
                    proof {
                        assert(v@ =~= files@.take(i + 1));
                    }
                }
                proof {
                    assert(files@.take(files@.len() as int) =~= files@);
                }
                QemuStorageType::Qcow2(v)
            },
            QemuStorageType::HostBlock(devices) => {
                let mut v: Vec<StorageConfigurationDisk> = Vec::new();
                for i in 0..devices.len()
                    invariant
                        v@ == devices@.take(i as int),
                {
                    v.push(devices[i].clone());
                    proof {
                        assert(v@ =~= devices@.take(i + 1));
                    }
                }
                proof {
                    assert(devices@.take(devices@.len() as int) =~= devices@);
                }
                QemuStorageType::HostBlock(v)
            },
            QemuStorageType::Iso(isos) => {
                let mut v: Vec<StorageConfigurationIso> = Vec::new();
                for i in 0..isos.len()
                    invariant
                        v@ == isos@.take(i as int),
                {
                    v.push(isos[i].clone());
                    proof {
                        assert(v@ =~= isos@.take(i + 1));
                    }
                }
                proof {
                    assert(isos@.take(isos@.len() as int) =~= isos@);
                }
                QemuStorageType::Iso(v)
            },
            QemuStorageType::CloudImage(images) => {
                let mut v: Vec<(StorageConfigurationCloudImage, QcowOptions)> = Vec::new();
                for i in 0..images.len()
                    invariant
                        v@ == images@.take(i as int),
                {
                    v.push((images[i].0.clone(), images[i].1.clone()));
                    proof {
                        assert(v@ =~= images@.take(i + 1));
                    }
                }
                proof {
                    assert(images@.take(images@.len() as int) =~= images@);
                }
                QemuStorageType::CloudImage(v)
            },
        }
    }
}

/// A copy of a row of storage.
pub fn copy_storage(v: &Vec<QemuStorageType>) -> (r: Vec<QemuStorageType>)
    ensures
        storages(r@) == storages(v@),
{
    let mut r: Vec<QemuStorageType> = Vec::new();
    for i in 0..v.len()
        invariant
            r@.len() == i,
            forall|j: int| 0 <= j < i ==> #[trigger] storages(r@)[j] == storages(v@)[j],
    {
        let ghost before = storages(r@);
        r.push(v[i].clone());
        proof {
            assert(storages(r@) =~= before.push(storages(v@)[i as int]));
        }
    }
    proof {
        assert(storages(r@) =~= storages(v@));
    }
    r
}

/// Whether a character may stand in the name of a managed file.
pub open spec fn is_storage_char(c: char) -> bool {
    is_alphanumeric(c) || c == '.' || c == '_' || c == '-'
}

/// A name as it may stand in the name of a managed file: any other character
/// becomes an underscore.
pub open spec fn storage_name(name: Seq<char>) -> Seq<char> {
    Seq::new(
        name.len(),
        |i: int|
            if is_storage_char(name[i]) {
                name[i]
            } else {
                '_'
            },
    )
}

/// A name as it may stand in the name of a managed file.
pub fn sanitize_storage_name(name: &str) -> (r: String)
    ensures
        r@ == storage_name(name@),
{
    let v = chars_of(name);
    let mut r = String::new();
    for i in 0..v.len()
        invariant
            v@ == name@,
            r@ == storage_name(name@).take(i as int),
    {
        let c = v[i];
        let keep = char_is_alphanumeric(c) || c == '.' || c == '_' || c == '-';
        r.push(if keep {
            c
        } else {
            '_'
        });
        proof {
            assert(r@ =~= storage_name(name@).take(i + 1));
        }
    }
    proof {
        assert(storage_name(name@).take(name@.len() as int) =~= storage_name(name@));
    }
    r
}

/// The directory that holds the data of a machine.
pub open spec fn data_dir(sys: SystemModel, id: FxIdModel) -> Seq<char> {
    path_join(sys.vm_data_root_path, fx_id_text(id))
}

/// The directory that holds the data of a machine.
pub fn vm_data_dir(system_configuration: &SystemConfiguration, fx_id: &FxId) -> (r: String)
    ensures
        r@ == data_dir(system_configuration@, fx_id@),
{
    join_path(system_configuration.vm_data_root_path.as_str(), fx_id.to_string().as_str())
}

/// The managed name for an identifier, or else for the name in a path, or else
/// the given one.
pub open spec fn managed_name(
    id: Seq<char>,
    path_name: Option<Seq<char>>,
    default: Seq<char>,
) -> Seq<char> {
    if id.len() > 0 {
        storage_name(id)
    } else {
        match path_name {
            Some(name) => storage_name(name),
            None => default,
        }
    }
}

fn manage_name(id: &str, path_name: Option<String>, default: &str) -> (r: String)
    ensures
        r@ == managed_name(
            id@,
            match path_name {
                Some(name) => Some(name@),
                None => None,
            },
            default@,
        ),
{
    if id.unicode_len() > 0 {
        sanitize_storage_name(id)
    } else {
        match path_name {
            Some(name) => sanitize_storage_name(name.as_str()),
            None => default.to_owned(),
        }
    }
}

/// The file name of a disk, without its extension.
pub open spec fn disk_name(disk: StorageConfigurationDisk) -> Seq<char> {
    managed_name(disk.id@, file_name(disk.path@), "disk"@)
}

/// The file name of a disk, without its extension.
pub fn disk_stem(props: &StorageConfigurationDisk) -> (r: String)
    ensures
        r@ == disk_name(*props),
{
    manage_name(props.id.as_str(), path_file_name(props.path.as_str()), "disk")
}

impl QemuQcowFormat {
    /// The file extension of the format.
    pub open spec fn extension(self) -> Seq<char> {
        match self {
            QemuQcowFormat::Raw => "img"@,
            QemuQcowFormat::Qcow2 => "qcow2"@,
        }
    }

    /// The name that `qemu-img` knows the format by.
    pub open spec fn text(self) -> Seq<char> {
        match self {
            QemuQcowFormat::Raw => "raw"@,
            QemuQcowFormat::Qcow2 => "qcow2"@,
        }
    }
}

/// The file of a disk.
pub open spec fn disk_path(
    sys: SystemModel,
    id: FxIdModel,
    disk: StorageConfigurationDisk,
    format: QemuQcowFormat,
) -> Seq<char> {
    path_join(data_dir(sys, id), disk_name(disk) + "."@ + format.extension())
}

/// The file of a disk.
pub fn qemu_disk_path(
    system_configuration: &SystemConfiguration,
    fx_id: &FxId,
    props: &StorageConfigurationDisk,
    format: &QemuQcowFormat,
) -> (r: String)
    ensures
        r@ == disk_path(system_configuration@, fx_id@, *props, *format),
{
    let ext = match format {
        QemuQcowFormat::Raw => QEMU_IMG_FILE_EXIT_RAW,
        QemuQcowFormat::Qcow2 => QEMU_IMG_FILE_EXT_QCOW2,
    };
    let name = cat3(disk_stem(props).as_str(), ".", ext);
    join_path(vm_data_dir(system_configuration, fx_id).as_str(), name.as_str())
}

/// The name that `qemu-img` knows a disk format by.
pub fn qemu_disk_format_arg(format: &QemuQcowFormat) -> (r: &'static str)
    ensures
        r@ == format.text(),
{
    match format {
        QemuQcowFormat::Raw => QEMU_IMG_FORMAT_RAW,
        QemuQcowFormat::Qcow2 => QEMU_IMG_FORMAT_QCOW2,
    }
}

/// The name that `qemu-img` knows an image format by; an ISO is no disk format.
pub open spec fn image_format(format: OsImageFileType) -> Option<Seq<char>> {
    match format {
        OsImageFileType::Iso => None,
        OsImageFileType::Qcow2 => Some("qcow2"@),
        OsImageFileType::Raw => Some("raw"@),
    }
}

/// The name that `qemu-img` knows an image format by.
pub fn os_image_format_arg(format: &OsImageFileType) -> (r: Option<&'static str>)
    ensures
        r is Some == image_format(*format) is Some,
        r is Some ==> r->0@ == image_format(*format)->0,
{
    match format {
        OsImageFileType::Iso => None,
        OsImageFileType::Qcow2 => Some(QEMU_IMG_FORMAT_QCOW2),
        OsImageFileType::Raw => Some(QEMU_IMG_FORMAT_RAW),
    }
}

/// The file that an ISO is copied to.
pub open spec fn iso_path(sys: SystemModel, id: FxIdModel, iso: StorageConfigurationIso) -> Seq<char> {
    path_join(data_dir(sys, id), managed_name(iso.id@, file_name(iso.path@), "media.iso"@))
}

/// The file that an ISO is copied to.
pub fn iso_dest_path(
    system_configuration: &SystemConfiguration,
    fx_id: &FxId,
    iso: &StorageConfigurationIso,
) -> (r: String)
    ensures
        r@ == iso_path(system_configuration@, fx_id@, *iso),
{
    let name = manage_name(iso.id.as_str(), path_file_name(iso.path.as_str()), "media.iso");
    join_path(vm_data_dir(system_configuration, fx_id).as_str(), name.as_str())
}

/// The file name of the overlay of a cloud image, without its extension.
pub open spec fn image_name(image: StorageConfigurationCloudImage) -> Seq<char> {
    managed_name(image.id@, file_stem(image.path@), "cloud-image"@)
}

/// The file name of the overlay of a cloud image, without its extension.
pub fn cloud_image_stem(image: &StorageConfigurationCloudImage) -> (r: String)
    ensures
        r@ == image_name(*image),
{
    manage_name(image.id.as_str(), path_file_stem(image.path.as_str()), "cloud-image")
}

/// The overlay of a cloud image.
pub open spec fn overlay_path(
    sys: SystemModel,
    id: FxIdModel,
    image: StorageConfigurationCloudImage,
) -> Seq<char> {
    path_join(data_dir(sys, id), image_name(image) + "."@ + "qcow2"@)
}

/// The overlay of a cloud image.
pub fn cloud_image_overlay_path(
    system_configuration: &SystemConfiguration,
    fx_id: &FxId,
    image: &StorageConfigurationCloudImage,
) -> (r: String)
    ensures
        r@ == overlay_path(system_configuration@, fx_id@, *image),
{
    let name = cat3(cloud_image_stem(image).as_str(), ".", QEMU_IMG_FILE_EXT_QCOW2);
    join_path(vm_data_dir(system_configuration, fx_id).as_str(), name.as_str())
}

/// A managed name is as long as the name it was made from, holds only harmless
/// characters, and stays as it is when it is managed again.
pub proof fn law_storage_name(name: Seq<char>)
    ensures
        storage_name(name).len() == name.len(),
        forall|i: int|
            0 <= i < name.len() ==> is_storage_char(#[trigger] storage_name(name)[i]),
        storage_name(storage_name(name)) == storage_name(name),
{
    assert forall|i: int| 0 <= i < name.len() implies is_storage_char(
        #[trigger] storage_name(name)[i],
    ) by {}
    assert(storage_name(storage_name(name)) =~= storage_name(name));
}

/// Whether a text is the name of a file in a directory: it has no separator.
pub open spec fn is_plain_file(name: Seq<char>) -> bool {
    forall|i: int| 0 <= i < name.len() ==> #[trigger] name[i] != '/'
}

/// Whether a path is that of a file directly in a directory.
pub open spec fn lies_in(path: Seq<char>, dir: Seq<char>) -> bool {
    exists|name: Seq<char>| #[trigger]
        is_plain_file(name) && path == (if dir.len() == 0 || dir.last() == '/' {
            dir + name
        } else {
            dir + seq!['/'] + name
        })
}

proof fn lemma_managed_name(id: Seq<char>, path_name: Option<Seq<char>>, default: Seq<char>)
    requires
        is_plain_file(default),
    ensures
        is_plain_file(managed_name(id, path_name, default)),
{
    law_storage_name(id);
    if let Some(name) = path_name {
        law_storage_name(name);
    }
    let n = managed_name(id, path_name, default);
    assert forall|i: int| 0 <= i < n.len() implies #[trigger] n[i] != '/' by {
        if id.len() > 0 {
            assert(is_storage_char(storage_name(id)[i]));
        } else if path_name is Some {
            assert(is_storage_char(storage_name(path_name->0)[i]));
        }
    }
}

proof fn lemma_joined_lies_in(dir: Seq<char>, name: Seq<char>)
    requires
        is_plain_file(name),
    ensures
        lies_in(path_join(dir, name), dir),
{
    assert(is_plain_file(name));
}

/// Whatever the identifiers and paths of storage hold, the managed files of a
/// machine lie directly in its data directory.
pub proof fn law_managed_files_stay_in_data_dir(
    sys: SystemModel,
    id: FxIdModel,
    disk: StorageConfigurationDisk,
    format: QemuQcowFormat,
    iso: StorageConfigurationIso,
    image: StorageConfigurationCloudImage,
)
    ensures
        lies_in(disk_path(sys, id, disk, format), data_dir(sys, id)),
        lies_in(iso_path(sys, id, iso), data_dir(sys, id)),
        lies_in(overlay_path(sys, id, image), data_dir(sys, id)),
{
    reveal_strlit("disk");
    reveal_strlit("media.iso");
    reveal_strlit("cloud-image");
    reveal_strlit(".");
    reveal_strlit("img");
    reveal_strlit("qcow2");
    lemma_managed_name(disk.id@, file_name(disk.path@), "disk"@);
    lemma_managed_name(iso.id@, file_name(iso.path@), "media.iso"@);
    lemma_managed_name(image.id@, file_stem(image.path@), "cloud-image"@);
    lemma_joined_lies_in(data_dir(sys, id), disk_name(disk) + "."@ + format.extension());
    lemma_joined_lies_in(
        data_dir(sys, id),
        managed_name(iso.id@, file_name(iso.path@), "media.iso"@),
    );
    lemma_joined_lies_in(data_dir(sys, id), image_name(image) + "."@ + "qcow2"@);
}

/// A managed name keeps the letters, digits, dots, underscores and hyphens of
/// the name it was made from, each in its place, and has an underscore for
/// every other character.
pub proof fn law_storage_name_characters(name: Seq<char>, i: int)
    requires
        0 <= i < name.len(),
    ensures
        ({
            let c = name[i];
            let kept = ('a' <= c && c <= 'z') || ('A' <= c && c <= 'Z') || ('0' <= c && c <= '9') || c
                == '.' || c == '_' || c == '-';
            storage_name(name)[i] == (if kept {
                c
            } else {
                '_'
            })
        }),
{
}

/// The managed files of a machine, from its storage: each lies in the data
/// directory of the machine under the identifier of the storage, and without
/// one under the last name of its path, and without that under a name of its
/// kind; a disk and an overlay end with their format.
pub proof fn law_managed_files(
    sys: SystemModel,
    id: FxIdModel,
    disk: StorageConfigurationDisk,
    iso: StorageConfigurationIso,
    image: StorageConfigurationCloudImage,
)
    ensures
        ({
            let dir = path_join(sys.vm_data_root_path, fx_id_text(id));
            let name = |given: Seq<char>, last: Option<Seq<char>>, kind: Seq<char>|
                if given.len() > 0 {
                    storage_name(given)
                } else if last is Some {
                    storage_name(last->0)
                } else {
                    kind
                };
            &&& disk_path(sys, id, disk, QemuQcowFormat::Qcow2) == path_join(
                dir,
                name(disk.id@, file_name(disk.path@), "disk"@) + "."@ + "qcow2"@,
            )
            &&& disk_path(sys, id, disk, QemuQcowFormat::Raw) == path_join(
                dir,
                name(disk.id@, file_name(disk.path@), "disk"@) + "."@ + "img"@,
            )
            &&& iso_path(sys, id, iso) == path_join(
                dir,
                name(iso.id@, file_name(iso.path@), "media.iso"@),
            )
            &&& overlay_path(sys, id, image) == path_join(
                dir,
                name(image.id@, file_stem(image.path@), "cloud-image"@) + "."@ + "qcow2"@,
            )
            &&& QemuQcowFormat::Qcow2.text() == "qcow2"@ && QemuQcowFormat::Raw.text() == "raw"@
            &&& image_format(OsImageFileType::Qcow2) == Some("qcow2"@)
            &&& image_format(OsImageFileType::Raw) == Some("raw"@)
            &&& image_format(OsImageFileType::Iso) is None
        }),
{
}

/// Rows of storage and of errors are seen item by item.
pub proof fn law_storage_rows(
    storage: Seq<QemuStorageType>,
    errors: Seq<QemuStorageCreateError>,
    i: int,
)
    ensures
        storages(storage).len() == storage.len(),
        0 <= i < storage.len() ==> storages(storage)[i] == storage[i]@,
        storage_errors(errors).len() == errors.len(),
        0 <= i < errors.len() ==> storage_errors(errors)[i] == errors[i]@,
{
}

} // verus!
