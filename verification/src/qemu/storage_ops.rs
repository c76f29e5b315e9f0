//! Operations on the storage of virtual machines.
//!
//! An operation is a row of tasks, one per disk, ISO or image. A task asks for
//! one action after another and ends with at most one error; the operation
//! goes on with the next task whatever became of the one before.
use vstd::prelude::*;

use crate::engine::machine_conf::StorageConfigurationCloudImage;
use crate::engine::machine_conf::StorageConfigurationDisk;
use crate::engine::machine_conf::StorageConfigurationIso;
use crate::engine::storage::StorageResizeRequest;
use crate::engine::storage::StorageResizeRequestDirection;
use crate::engine::sys_conf::SystemConfiguration;
use crate::engine::sys_conf::SystemModel;
use crate::engine::os::OsImageFileType;
use crate::fx_id::FxId;
use crate::fx_id::FxIdModel;
use crate::fx_id::fx_id_text;
use crate::io_error::IoError;
use crate::number::decimal;
use crate::path::path_join;
use crate::qemu::machine::QemuMachineConfiguration;
use crate::qemu::storage::QemuQcowFormat;
use crate::qemu::storage::QemuStorageCreateError;
use crate::qemu::storage::QemuStorageType;
use crate::qemu::storage::StorageErrorModel;
use crate::qemu::storage::StorageModel;
use crate::qemu::storage::cloud_image_overlay_path;
use crate::qemu::storage::data_dir;
use crate::qemu::storage::disk_path;
use crate::qemu::storage::image_format;
use crate::qemu::storage::iso_dest_path;
use crate::qemu::storage::iso_path;
use crate::qemu::storage::os_image_format_arg;
use crate::qemu::storage::overlay_path;
use crate::qemu::storage::qemu_disk_format_arg;
use crate::qemu::storage::qemu_disk_path;
use crate::qemu::storage::storage_errors;
use crate::qemu::storage::storages;
use crate::qemu::storage::vm_data_dir;
use crate::qemu::storage_qcow::QEMU_IMG_FORMAT_QCOW2;
use crate::qemu::storage_qcow::QcowModel;
use crate::qemu::storage_qcow::QcowOptions;
use crate::qemu::storage_qcow::img_create_words;
use crate::qemu::storage_qcow::img_info_words;
use crate::qemu::storage_qcow::img_resize_words;
use crate::qemu::storage_qcow::inspect_qemu_image;
use crate::qemu::storage_qcow::qemu_img_create;
use crate::qemu::storage_qcow::qemu_img_resize;
use crate::text::copy_strings;
use crate::text::texts;
use crate::utils::CommandRanError;

verus! {

/// What is to be done with one piece of storage.
#[derive(Debug)]
pub enum StorageTask {
    /// Create the image of a disk, or check the one that is there.
    CreateDisk { dir: String, filename: String, args: Vec<String> },
    /// Create the overlay of a cloud image, or check the one that is there.
    CreateOverlay { source: String, dir: String, filename: String, args: Vec<String> },
    /// Copy an ISO.
    CopyIso { dir: String, source: String, destination: String },
    /// Check that a path is a block device.
    HostBlock { path: String },
    /// Check the image of a disk.
    InspectDisk { filename: String },
    /// Check the overlay of a cloud image, or the image where there is no
    /// overlay; only a disk image can have one.
    InspectOverlay { overlay: String, source: String, writable: bool },
    /// Check that an ISO is there.
    FindIso { path: String },
    /// Resize an image.
    Resize { filename: String, args: Vec<String> },
    /// Report an error.
    Refuse { error: QemuStorageCreateError },
}

/// The model of a task.
#[verifier::ext_equal]
pub enum TaskModel {
    CreateDisk { dir: Seq<char>, filename: Seq<char>, args: Seq<Seq<char>> },
    CreateOverlay { source: Seq<char>, dir: Seq<char>, filename: Seq<char>, args: Seq<Seq<char>> },
    CopyIso { dir: Seq<char>, source: Seq<char>, destination: Seq<char> },
    HostBlock { path: Seq<char> },
    InspectDisk { filename: Seq<char> },
    InspectOverlay { overlay: Seq<char>, source: Seq<char>, writable: bool },
    FindIso { path: Seq<char> },
    Resize { filename: Seq<char>, args: Seq<Seq<char>> },
    Refuse { error: QemuStorageCreateError },
}

impl View for StorageTask {
    type V = TaskModel;

    open spec fn view(&self) -> TaskModel {
        match self {
            StorageTask::CreateDisk { dir, filename, args } => TaskModel::CreateDisk {
                dir: dir@,
                filename: filename@,
                args: texts(args@),
            },
            StorageTask::CreateOverlay { source, dir, filename, args } => TaskModel::CreateOverlay {
                source: source@,
                dir: dir@,
                filename: filename@,
                args: texts(args@),
            },
            StorageTask::CopyIso { dir, source, destination } => TaskModel::CopyIso {
                dir: dir@,
                source: source@,
                destination: destination@,
            },
            StorageTask::HostBlock { path } => TaskModel::HostBlock { path: path@ },
            StorageTask::InspectDisk { filename } => TaskModel::InspectDisk {
                filename: filename@,
            },
            StorageTask::InspectOverlay { overlay, source, writable } => TaskModel::InspectOverlay {
                overlay: overlay@,
                source: source@,
                writable: *writable,
            },
            StorageTask::FindIso { path } => TaskModel::FindIso { path: path@ },
            StorageTask::Resize { filename, args } => TaskModel::Resize {
                filename: filename@,
                args: texts(args@),
            },
            StorageTask::Refuse { error } => TaskModel::Refuse { error: *error },
        }
    }
}

/// The models of a row of tasks.
pub open spec fn tasks_of(v: Seq<StorageTask>) -> Seq<TaskModel> {
    Seq::new(v.len(), |i: int| v[i]@)
}

/// What a task asks for.
#[derive(Clone, Copy, Debug, PartialEq, Eq, Structural)]
pub enum StorageAsk {
    /// Does the image that an overlay rests on exist?
    SourceExists,
    /// Make the data directory.
    MakeDir,
    /// Does the managed file exist?
    TargetExists,
    /// Is the managed file corrupt?
    Inspect,
    /// Is the image that an overlay rests on corrupt?
    InspectSource,
    /// Run `qemu-img`.
    RunImg,
    /// Copy the ISO.
    Copy,
    /// Is the path a block device?
    Stat,
    /// Nothing: the task only reports.
    Report,
}

/// An action on storage.
#[derive(Debug)]
pub enum StorageAction {
    /// Create a directory and its parents.
    CreateDir(String),
    /// Find out whether a file exists.
    Exists(String),
    /// Run `qemu-img info` with these arguments, and find out whether the image
    /// is corrupt.
    Inspect(Vec<String>),
    /// Run `qemu-img` with these arguments, and find out whether it exited with
    /// success.
    RunImg(Vec<String>),
    /// Copy a file.
    Copy(String, String),
    /// Find out whether a path is a block device.
    StatBlock(String),
    /// Nothing.
    Nothing,
}

/// The model of an action.
#[verifier::ext_equal]
pub enum ActionModel {
    CreateDir(Seq<char>),
    Exists(Seq<char>),
    Inspect(Seq<Seq<char>>),
    RunImg(Seq<Seq<char>>),
    Copy(Seq<char>, Seq<char>),
    StatBlock(Seq<char>),
    Nothing,
}

impl View for StorageAction {
    type V = ActionModel;

    open spec fn view(&self) -> ActionModel {
        match self {
            StorageAction::CreateDir(path) => ActionModel::CreateDir(path@),
            StorageAction::Exists(path) => ActionModel::Exists(path@),
            StorageAction::Inspect(args) => ActionModel::Inspect(texts(args@)),
            StorageAction::RunImg(args) => ActionModel::RunImg(texts(args@)),
            StorageAction::Copy(source, destination) => ActionModel::Copy(source@, destination@),
            StorageAction::StatBlock(path) => ActionModel::StatBlock(path@),
            StorageAction::Nothing => ActionModel::Nothing,
        }
    }
}

/// Why an action on storage failed.
#[derive(Debug)]
pub enum StorageFailure {
    /// The operating system refused.
    Io(IoError),
    /// The command could not be run.
    Command(CommandRanError),
    /// The output of the command could not be read.
    Json(String),
}

impl StorageFailure {
    /// The storage error for a failed action.
    pub open spec fn error(self) -> QemuStorageCreateError {
        match self {
            StorageFailure::Io(err) => QemuStorageCreateError::IO(err),
            StorageFailure::Command(err) => QemuStorageCreateError::CommandRanError(err),
            StorageFailure::Json(message) => QemuStorageCreateError::JsonParse(message),
        }
    }

    fn into_error(self) -> (r: QemuStorageCreateError)
        ensures
            r == self.error(),
    {
        match self {
            StorageFailure::Io(err) => QemuStorageCreateError::IO(err),
            StorageFailure::Command(err) => QemuStorageCreateError::CommandRanError(err),
            StorageFailure::Json(message) => QemuStorageCreateError::JsonParse(message),
        }
    }
}

/// What follows in a task.
#[derive(Debug)]
pub enum TaskStep {
    /// Something else is asked for.
    Ask(StorageAsk),
    /// The task has ended, with or without an error.
    Done(Option<QemuStorageCreateError>),
}

/// What a task asks for first.
pub open spec fn first_ask(task: StorageTask) -> StorageAsk {
    match task {
        StorageTask::CreateDisk { .. } => StorageAsk::MakeDir,
        StorageTask::CreateOverlay { .. } => StorageAsk::SourceExists,
        StorageTask::CopyIso { .. } => StorageAsk::MakeDir,
        StorageTask::HostBlock { .. } => StorageAsk::Stat,
        StorageTask::InspectDisk { .. } => StorageAsk::Inspect,
        StorageTask::InspectOverlay { .. } => StorageAsk::TargetExists,
        StorageTask::FindIso { .. } => StorageAsk::TargetExists,
        StorageTask::Resize { .. } => StorageAsk::RunImg,
        StorageTask::Refuse { .. } => StorageAsk::Report,
    }
}

/// The action that a task asks for.
pub open spec fn asked_action(task: TaskModel, ask: StorageAsk) -> ActionModel {
    match (task, ask) {
        (TaskModel::CreateDisk { dir, .. }, StorageAsk::MakeDir) => ActionModel::CreateDir(dir),
        (TaskModel::CreateDisk { filename, .. }, StorageAsk::TargetExists) => ActionModel::Exists(
            filename,
        ),
        (TaskModel::CreateDisk { filename, .. }, StorageAsk::Inspect) => ActionModel::Inspect(
            img_info_words(filename),
        ),
        (TaskModel::CreateDisk { args, .. }, StorageAsk::RunImg) => ActionModel::RunImg(args),
        (TaskModel::CreateOverlay { source, .. }, StorageAsk::SourceExists) => ActionModel::Exists(
            source,
        ),
        (TaskModel::CreateOverlay { dir, .. }, StorageAsk::MakeDir) => ActionModel::CreateDir(dir),
        (TaskModel::CreateOverlay { filename, .. }, StorageAsk::TargetExists) => ActionModel::Exists(
            filename,
        ),
        (TaskModel::CreateOverlay { filename, .. }, StorageAsk::Inspect) => ActionModel::Inspect(
            img_info_words(filename),
        ),
        (TaskModel::CreateOverlay { args, .. }, StorageAsk::RunImg) => ActionModel::RunImg(args),
        (TaskModel::CopyIso { dir, .. }, StorageAsk::MakeDir) => ActionModel::CreateDir(dir),
        (TaskModel::CopyIso { source, destination, .. }, StorageAsk::Copy) => ActionModel::Copy(
            source,
            destination,
        ),
        (TaskModel::HostBlock { path }, StorageAsk::Stat) => ActionModel::StatBlock(path),
        (TaskModel::InspectDisk { filename }, StorageAsk::Inspect) => ActionModel::Inspect(
            img_info_words(filename),
        ),
        (TaskModel::InspectOverlay { overlay, .. }, StorageAsk::TargetExists) => ActionModel::Exists(
            overlay,
        ),
        (TaskModel::InspectOverlay { overlay, .. }, StorageAsk::Inspect) => ActionModel::Inspect(
            img_info_words(overlay),
        ),
        (TaskModel::InspectOverlay { source, .. }, StorageAsk::InspectSource) => ActionModel::Inspect(
            img_info_words(source),
        ),
        (TaskModel::FindIso { path }, StorageAsk::TargetExists) => ActionModel::Exists(path),
        (TaskModel::Resize { args, .. }, StorageAsk::RunImg) => ActionModel::RunImg(args),
        _ => ActionModel::Nothing,
    }
}

/// What follows an inspection of a file.
pub open spec fn after_inspect(filename: String, answer: Result<bool, StorageFailure>) -> TaskStep {
    match answer {
        Ok(corrupt) => if corrupt {
            TaskStep::Done(Some(QemuStorageCreateError::CorruptImage(filename)))
        } else {
            TaskStep::Done(None)
        },
        Err(failure) => TaskStep::Done(Some(failure.error())),
    }
}

/// What follows an action that is to succeed.
pub open spec fn after_work(answer: Result<bool, StorageFailure>, next: TaskStep) -> TaskStep {
    match answer {
        Ok(_) => next,
        Err(failure) => TaskStep::Done(Some(failure.error())),
    }
}

/// What follows a run of `qemu-img` on a file: only where it exited with success
/// was its work done.
pub open spec fn after_img(
    command: &'static str,
    filename: String,
    answer: Result<bool, StorageFailure>,
) -> TaskStep {
    match answer {
        Ok(success) => if success {
            TaskStep::Done(None)
        } else {
            TaskStep::Done(Some(QemuStorageCreateError::CommandFailed(command, filename)))
        },
        Err(failure) => TaskStep::Done(Some(failure.error())),
    }
}

/// What follows the question whether a file exists.
pub open spec fn after_exists(
    answer: Result<bool, StorageFailure>,
    there: TaskStep,
    missing: TaskStep,
) -> TaskStep {
    match answer {
        Ok(found) => if found {
            there
        } else {
            missing
        },
        Err(failure) => TaskStep::Done(Some(failure.error())),
    }
}

/// What follows the question whether a path is a block device.
pub open spec fn after_stat(path: String, answer: Result<bool, StorageFailure>) -> TaskStep {
    match answer {
        Ok(is_block) => if is_block {
            TaskStep::Done(None)
        } else {
            TaskStep::Done(
                Some(
                    QemuStorageCreateError::UnsupportedStorage(
                        "host block storage path is not a block device",
                    ),
                ),
            )
        },
        Err(failure) => match failure {
            StorageFailure::Io(err) => if err.kind is NotFound {
                TaskStep::Done(Some(QemuStorageCreateError::FileNotFound(path)))
            } else {
                TaskStep::Done(Some(QemuStorageCreateError::IO(err)))
            },
            _ => TaskStep::Done(Some(failure.error())),
        },
    }
}

/// What follows in a task once its question was answered.
///
/// The flag of an answer says whether a file exists, whether an image is
/// corrupt, whether a path is a block device, or whether `qemu-img` exited with
/// success.
pub open spec fn task_next(
    task: StorageTask,
    ask: StorageAsk,
    answer: Result<bool, StorageFailure>,
) -> TaskStep {
    match (task, ask) {
        (StorageTask::CreateDisk { .. }, StorageAsk::MakeDir) => after_work(
            answer,
            TaskStep::Ask(StorageAsk::TargetExists),
        ),
        (StorageTask::CreateDisk { .. }, StorageAsk::TargetExists) => after_exists(
            answer,
            TaskStep::Ask(StorageAsk::Inspect),
            TaskStep::Ask(StorageAsk::RunImg),
        ),
        (StorageTask::CreateDisk { filename, .. }, StorageAsk::Inspect) => after_inspect(
            filename,
            answer,
        ),
        (StorageTask::CreateDisk { filename, .. }, StorageAsk::RunImg) => after_img(
            "qemu-img create",
            filename,
            answer,
        ),
        (StorageTask::CreateOverlay { source, .. }, StorageAsk::SourceExists) => after_exists(
            answer,
            TaskStep::Ask(StorageAsk::MakeDir),
            TaskStep::Done(Some(QemuStorageCreateError::FileNotFound(source))),
        ),
        (StorageTask::CreateOverlay { .. }, StorageAsk::MakeDir) => after_work(
            answer,
            TaskStep::Ask(StorageAsk::TargetExists),
        ),
        (StorageTask::CreateOverlay { .. }, StorageAsk::TargetExists) => after_exists(
            answer,
            TaskStep::Ask(StorageAsk::Inspect),
            TaskStep::Ask(StorageAsk::RunImg),
        ),
        (StorageTask::CreateOverlay { filename, .. }, StorageAsk::Inspect) => after_inspect(
            filename,
            answer,
        ),
        (StorageTask::CreateOverlay { filename, .. }, StorageAsk::RunImg) => after_img(
            "qemu-img create",
            filename,
            answer,
        ),
        (StorageTask::CopyIso { .. }, StorageAsk::MakeDir) => after_work(
            answer,
            TaskStep::Ask(StorageAsk::Copy),
        ),
        (StorageTask::CopyIso { .. }, StorageAsk::Copy) => after_work(answer, TaskStep::Done(None)),
        (StorageTask::HostBlock { path }, StorageAsk::Stat) => after_stat(path, answer),
        (StorageTask::InspectDisk { filename }, StorageAsk::Inspect) => after_inspect(
            filename,
            answer,
        ),
        (StorageTask::InspectOverlay { writable, .. }, StorageAsk::TargetExists) => if writable {
            after_exists(
                answer,
                TaskStep::Ask(StorageAsk::Inspect),
                TaskStep::Ask(StorageAsk::InspectSource),
            )
        } else {
            after_work(answer, TaskStep::Done(Some(iso_is_no_disk())))
        },
        (StorageTask::InspectOverlay { overlay, .. }, StorageAsk::Inspect) => after_inspect(
            overlay,
            answer,
        ),
        (StorageTask::InspectOverlay { source, .. }, StorageAsk::InspectSource) => after_inspect(
            source,
            answer,
        ),
        (StorageTask::FindIso { path }, StorageAsk::TargetExists) => TaskStep::Done(
            if answer == Ok::<bool, StorageFailure>(true) {
                None
            } else {
                Some(QemuStorageCreateError::FileNotFound(path))
            },
        ),
        (StorageTask::Resize { filename, .. }, StorageAsk::RunImg) => after_img(
            "qemu-img resize",
            filename,
            answer,
        ),
        (StorageTask::Refuse { error }, _) => TaskStep::Done(Some(error)),
        _ => TaskStep::Done(None),
    }
}

/// The error for a cloud image that cannot be written to.
pub open spec fn iso_is_no_disk() -> QemuStorageCreateError {
    QemuStorageCreateError::UnsupportedStorage("ISO cloud images cannot be used as writable disks")
}

fn step_after_inspect(filename: &String, answer: Result<bool, StorageFailure>) -> (r: TaskStep)
    ensures
        r == after_inspect(*filename, answer),
{
    match answer {
        Ok(corrupt) => if corrupt {
            TaskStep::Done(Some(QemuStorageCreateError::CorruptImage(filename.clone())))
        } else {
            TaskStep::Done(None)
        },
        Err(failure) => TaskStep::Done(Some(failure.into_error())),
    }
}

fn step_after_work(answer: Result<bool, StorageFailure>, next: TaskStep) -> (r: TaskStep)
    ensures
        r == after_work(answer, next),
{
    match answer {
        Ok(_) => next,
        Err(failure) => TaskStep::Done(Some(failure.into_error())),
    }
}

fn step_after_img(
    command: &'static str,
    filename: &String,
    answer: Result<bool, StorageFailure>,
) -> (r: TaskStep)
    ensures
        r == after_img(command, *filename, answer),
{
    match answer {
        Ok(success) => if success {
            TaskStep::Done(None)
        } else {
            TaskStep::Done(Some(QemuStorageCreateError::CommandFailed(command, filename.clone())))
        },
        Err(failure) => TaskStep::Done(Some(failure.into_error())),
    }
}

fn step_after_exists(
    answer: Result<bool, StorageFailure>,
    there: TaskStep,
    missing: TaskStep,
) -> (r: TaskStep)
    ensures
        r == after_exists(answer, there, missing),
{
    match answer {
        Ok(found) => if found {
            there
        } else {
            missing
        },
        Err(failure) => TaskStep::Done(Some(failure.into_error())),
    }
}

/// The result of looking at a host block device.
pub fn validate_host_block_device(path: &String, answer: Result<bool, StorageFailure>) -> (r:
    TaskStep)
    ensures
        r == after_stat(*path, answer),
{
    match answer {
        Ok(is_block) => if is_block {
            TaskStep::Done(None)
        } else {
            TaskStep::Done(
                Some(
                    QemuStorageCreateError::UnsupportedStorage(
                        "host block storage path is not a block device",
                    ),
                ),
            )
        },
        Err(failure) => match failure {
            StorageFailure::Io(err) => if err.is_not_found() {
                TaskStep::Done(Some(QemuStorageCreateError::FileNotFound(path.clone())))
            } else {
                TaskStep::Done(Some(QemuStorageCreateError::IO(err)))
            },
            _ => TaskStep::Done(Some(failure.into_error())),
        },
    }
}

impl StorageTask {
    /// What the task asks for first.
    pub fn first(&self) -> (r: StorageAsk)
        ensures
            r == first_ask(*self),
    {
        match self {
            StorageTask::CreateDisk { .. } => StorageAsk::MakeDir,
            StorageTask::CreateOverlay { .. } => StorageAsk::SourceExists,
            StorageTask::CopyIso { .. } => StorageAsk::MakeDir,
            StorageTask::HostBlock { .. } => StorageAsk::Stat,
            StorageTask::InspectDisk { .. } => StorageAsk::Inspect,
            StorageTask::InspectOverlay { .. } => StorageAsk::TargetExists,
            StorageTask::FindIso { .. } => StorageAsk::TargetExists,
            StorageTask::Resize { .. } => StorageAsk::RunImg,
            StorageTask::Refuse { .. } => StorageAsk::Report,
        }
    }

    /// The action that the task asks for.
    pub fn action(&self, ask: StorageAsk) -> (r: StorageAction)
        ensures
            r@ == asked_action(self@, ask),
    {
        match (self, ask) {
            (StorageTask::CreateDisk { dir, .. }, StorageAsk::MakeDir) => StorageAction::CreateDir(
                dir.clone(),
            ),
            (StorageTask::CreateDisk { filename, .. }, StorageAsk::TargetExists) => StorageAction::Exists(
                filename.clone(),
            ),
            (StorageTask::CreateDisk { filename, .. }, StorageAsk::Inspect) => StorageAction::Inspect(
                inspect_qemu_image(filename.as_str()),
            ),
            (StorageTask::CreateDisk { args, .. }, StorageAsk::RunImg) => StorageAction::RunImg(
                copy_strings(args),
            ),
            (StorageTask::CreateOverlay { source, .. }, StorageAsk::SourceExists) => StorageAction::Exists(
                source.clone(),
            ),
            (StorageTask::CreateOverlay { dir, .. }, StorageAsk::MakeDir) => StorageAction::CreateDir(
                dir.clone(),
            ),
            (StorageTask::CreateOverlay { filename, .. }, StorageAsk::TargetExists) => StorageAction::Exists(
                filename.clone(),
            ),
            (StorageTask::CreateOverlay { filename, .. }, StorageAsk::Inspect) => StorageAction::Inspect(
                inspect_qemu_image(filename.as_str()),
            ),
            (StorageTask::CreateOverlay { args, .. }, StorageAsk::RunImg) => StorageAction::RunImg(
                copy_strings(args),
            ),
            (StorageTask::CopyIso { dir, .. }, StorageAsk::MakeDir) => StorageAction::CreateDir(
                dir.clone(),
            ),
            (StorageTask::CopyIso { source, destination, .. }, StorageAsk::Copy) => StorageAction::Copy(
                source.clone(),
                destination.clone(),
            ),
            (StorageTask::HostBlock { path }, StorageAsk::Stat) => StorageAction::StatBlock(
                path.clone(),
            ),
            (StorageTask::InspectDisk { filename }, StorageAsk::Inspect) => StorageAction::Inspect(
                inspect_qemu_image(filename.as_str()),
            ),
            (StorageTask::InspectOverlay { overlay, .. }, StorageAsk::TargetExists) => StorageAction::Exists(
                overlay.clone(),
            ),
            (StorageTask::InspectOverlay { overlay, .. }, StorageAsk::Inspect) => StorageAction::Inspect(
                inspect_qemu_image(overlay.as_str()),
            ),
            (StorageTask::InspectOverlay { source, .. }, StorageAsk::InspectSource) => StorageAction::Inspect(
                inspect_qemu_image(source.as_str()),
            ),
            (StorageTask::FindIso { path }, StorageAsk::TargetExists) => StorageAction::Exists(
                path.clone(),
            ),
            (StorageTask::Resize { args, .. }, StorageAsk::RunImg) => StorageAction::RunImg(
                copy_strings(args),
            ),
            _ => StorageAction::Nothing,
        }
    }

    /// What follows once the question was answered.
    pub fn next(&self, ask: StorageAsk, answer: Result<bool, StorageFailure>) -> (r: TaskStep)
        ensures
            r == task_next(*self, ask, answer),
    {
        match (self, ask) {
            (StorageTask::CreateDisk { .. }, StorageAsk::MakeDir) => step_after_work(
                answer,
                TaskStep::Ask(StorageAsk::TargetExists),
            ),
            (StorageTask::CreateDisk { .. }, StorageAsk::TargetExists) => step_after_exists(
                answer,
                TaskStep::Ask(StorageAsk::Inspect),
                TaskStep::Ask(StorageAsk::RunImg),
            ),
            (StorageTask::CreateDisk { filename, .. }, StorageAsk::Inspect) => step_after_inspect(
                filename,
                answer,
            ),
            (StorageTask::CreateDisk { filename, .. }, StorageAsk::RunImg) => step_after_img(
                "qemu-img create",
                filename,
                answer,
            ),
            (StorageTask::CreateOverlay { source, .. }, StorageAsk::SourceExists) => step_after_exists(
                answer,
                TaskStep::Ask(StorageAsk::MakeDir),
                TaskStep::Done(Some(QemuStorageCreateError::FileNotFound(source.clone()))),
            ),
            (StorageTask::CreateOverlay { .. }, StorageAsk::MakeDir) => step_after_work(
                answer,
                TaskStep::Ask(StorageAsk::TargetExists),
            ),
            (StorageTask::CreateOverlay { .. }, StorageAsk::TargetExists) => step_after_exists(
                answer,
                TaskStep::Ask(StorageAsk::Inspect),
                TaskStep::Ask(StorageAsk::RunImg),
            ),
            (StorageTask::CreateOverlay { filename, .. }, StorageAsk::Inspect) => step_after_inspect(
                filename,
                answer,
            ),
            (StorageTask::CreateOverlay { filename, .. }, StorageAsk::RunImg) => step_after_img(
                "qemu-img create",
                filename,
                answer,
            ),
            (StorageTask::CopyIso { .. }, StorageAsk::MakeDir) => step_after_work(
                answer,
                TaskStep::Ask(StorageAsk::Copy),
            ),
            (StorageTask::CopyIso { .. }, StorageAsk::Copy) => step_after_work(
                answer,
                TaskStep::Done(None),
            ),
            (StorageTask::HostBlock { path }, StorageAsk::Stat) => validate_host_block_device(
                path,
                answer,
            ),
            (StorageTask::InspectDisk { filename }, StorageAsk::Inspect) => step_after_inspect(
                filename,
                answer,
            ),
            (StorageTask::InspectOverlay { writable, .. }, StorageAsk::TargetExists) => if *writable {
                step_after_exists(
                    answer,
                    TaskStep::Ask(StorageAsk::Inspect),
                    TaskStep::Ask(StorageAsk::InspectSource),
                )
            } else {
                step_after_work(
                    answer,
                    TaskStep::Done(
                        Some(
                            QemuStorageCreateError::UnsupportedStorage(
                                "ISO cloud images cannot be used as writable disks",
                            ),
                        ),
                    ),
                )
            },
            (StorageTask::InspectOverlay { overlay, .. }, StorageAsk::Inspect) => step_after_inspect(
                overlay,
                answer,
            ),
            (StorageTask::InspectOverlay { source, .. }, StorageAsk::InspectSource) => step_after_inspect(
                source,
                answer,
            ),
            (StorageTask::FindIso { path }, StorageAsk::TargetExists) => {
                let there = match answer {
                    Ok(found) => found,
                    Err(_) => false,
                };
                TaskStep::Done(
                    if there {
                        None
                    } else {
                        Some(QemuStorageCreateError::FileNotFound(path.clone()))
                    },
                )
            },
            (StorageTask::Resize { filename, .. }, StorageAsk::RunImg) => step_after_img(
                "qemu-img resize",
                filename,
                answer,
            ),
            (StorageTask::Refuse { error }, _) => TaskStep::Done(Some(error.clone())),
            _ => TaskStep::Done(None),
        }
    }
}

/// An operation on storage: tasks taken in order, whatever becomes of each.
#[derive(Debug)]
pub struct StorageRun {
    /// The tasks.
    pub tasks: Vec<StorageTask>,
    /// The task that is under way.
    pub at: usize,
    /// What it asks for.
    pub ask: StorageAsk,
    /// The errors of the tasks that have ended.
    pub errors: Vec<QemuStorageCreateError>,
}

/// The model of an operation on storage.
#[verifier::ext_equal]
pub struct RunModel {
    pub tasks: Seq<StorageTask>,
    pub at: int,
    pub ask: StorageAsk,
    pub errors: Seq<QemuStorageCreateError>,
}

impl View for StorageRun {
    type V = RunModel;

    open spec fn view(&self) -> RunModel {
        RunModel {
            tasks: self.tasks@,
            at: self.at as int,
            ask: self.ask,
            errors: self.errors@,
        }
    }
}

/// What the task at a place asks for first; behind the last task nothing is
/// asked.
pub open spec fn ask_at(tasks: Seq<StorageTask>, at: int) -> StorageAsk {
    if 0 <= at < tasks.len() {
        first_ask(tasks[at])
    } else {
        StorageAsk::Report
    }
}

/// The row of errors with one more, where there is one more.
pub open spec fn with_error(
    errors: Seq<QemuStorageCreateError>,
    error: Option<QemuStorageCreateError>,
) -> Seq<QemuStorageCreateError> {
    match error {
        Some(err) => errors.push(err),
        None => errors,
    }
}

/// An operation that begins with the given tasks.
pub open spec fn run_of(tasks: Seq<StorageTask>) -> RunModel {
    RunModel { tasks, at: 0, ask: ask_at(tasks, 0), errors: seq![] }
}

impl RunModel {
    /// The operation after the answer to the current question.
    pub open spec fn after(self, answer: Result<bool, StorageFailure>) -> RunModel {
        if 0 <= self.at < self.tasks.len() {
            match task_next(self.tasks[self.at], self.ask, answer) {
                TaskStep::Ask(ask) => RunModel { ask, ..self },
                TaskStep::Done(error) => RunModel {
                    at: self.at + 1,
                    ask: ask_at(self.tasks, self.at + 1),
                    errors: with_error(self.errors, error),
                    ..self
                },
            }
        } else {
            self
        }
    }
}

impl StorageRun {
    /// Begins an operation.
    pub fn new(tasks: Vec<StorageTask>) -> (r: Self)
        ensures
            r@ == run_of(tasks@),
    {
        let ask = if tasks.len() > 0 {
            tasks[0].first()
        } else {
            StorageAsk::Report
        };
        StorageRun { tasks, at: 0, ask, errors: Vec::new() }
    }

    /// The action to perform next; none is left once all tasks have ended.
    pub fn action(&self) -> (r: Option<StorageAction>)
        ensures
            r is Some == (self@.at < self@.tasks.len()),
            r is Some ==> r->0@ == asked_action(self@.tasks[self@.at]@, self@.ask),
    {
        if self.at < self.tasks.len() {
            Some(self.tasks[self.at].action(self.ask))
        } else {
            None
        }
    }

    /// Takes in the answer to the current question.
    pub fn advance(&mut self, answer: Result<bool, StorageFailure>)
        ensures
            final(self)@ == old(self)@.after(answer),
    {
        if self.at < self.tasks.len() {
            match self.tasks[self.at].next(self.ask, answer) {
                TaskStep::Ask(ask) => {
                    self.ask = ask;
                },
                TaskStep::Done(error) => {
                    self.at = self.at + 1;
                    self.ask = if self.at < self.tasks.len() {
                        self.tasks[self.at].first()
                    } else {
                        StorageAsk::Report
                    };
                    match error {
                        Some(err) => {
                            self.errors.push(err);
                        },
                        None => {},
                    }
                },
            }
        }
    }

    /// The result of an operation that has ended: it succeeded if no task had
    /// an error.
    pub fn result(self) -> (r: Option<Result<(), Vec<QemuStorageCreateError>>>)
        ensures
            r == (if self.at < self.tasks@.len() {
                None
            } else if self.errors@.len() == 0 {
                Some(Ok::<(), Vec<QemuStorageCreateError>>(()))
            } else {
                Some(Err(self.errors))
            }),
    {
        if self.at < self.tasks.len() {
            None
        } else if self.errors.len() == 0 {
            Some(Ok(()))
        } else {
            Some(Err(self.errors))
        }
    }
}

/// The rows of tasks after another.
pub open spec fn concat(groups: Seq<Seq<TaskModel>>) -> Seq<TaskModel>
    decreases groups.len(),
{
    if groups.len() == 0 {
        seq![]
    } else {
        concat(groups.drop_last()) + groups.last()
    }
}

/// The options of an overlay: what it rests on is filled in where it is not
/// given.
pub open spec fn with_backing(options: QcowModel, file: Seq<char>, format: Seq<char>) -> QcowModel {
    QcowModel {
        backing_file: match options.backing_file {
            Some(f) => Some(f),
            None => Some(file),
        },
        backing_format: match options.backing_format {
            Some(f) => Some(f),
            None => Some(format),
        },
        ..options
    }
}

/// The task that creates a disk.
pub open spec fn create_disk(
    sys: SystemModel,
    id: FxIdModel,
    file: (StorageConfigurationDisk, QemuQcowFormat, QcowOptions),
) -> TaskModel {
    TaskModel::CreateDisk {
        dir: data_dir(sys, id),
        filename: disk_path(sys, id, file.0, file.1),
        args: img_create_words(
            file.1.text(),
            disk_path(sys, id, file.0, file.1),
            Some(file.0.size),
            file.2@,
        ),
    }
}

/// The task that creates the overlay of a cloud image.
pub open spec fn create_overlay(
    sys: SystemModel,
    id: FxIdModel,
    image: (StorageConfigurationCloudImage, QcowOptions),
) -> TaskModel {
    match image_format(image.0.os_type) {
        Some(format) => TaskModel::CreateOverlay {
            source: image.0.path@,
            dir: data_dir(sys, id),
            filename: overlay_path(sys, id, image.0),
            args: img_create_words(
                "qcow2"@,
                overlay_path(sys, id, image.0),
                None,
                with_backing(image.1@, image.0.path@, format),
            ),
        },
        None => TaskModel::Refuse { error: iso_is_no_disk() },
    }
}

/// The task that copies an ISO.
pub open spec fn copy_iso(sys: SystemModel, id: FxIdModel, iso: StorageConfigurationIso) -> TaskModel {
    TaskModel::CopyIso {
        dir: data_dir(sys, id),
        source: iso.path@,
        destination: iso_path(sys, id, iso),
    }
}

/// The tasks that create storage.
pub open spec fn create_group(sys: SystemModel, id: FxIdModel, storage: StorageModel) -> Seq<
    TaskModel,
> {
    match storage {
        StorageModel::Qcow2(files) => Seq::new(
            files.len(),
            |i: int| create_disk(sys, id, files[i]),
        ),
        StorageModel::HostBlock(devices) => Seq::new(
            devices.len(),
            |i: int| TaskModel::HostBlock { path: devices[i].path@ },
        ),
        StorageModel::Iso(isos) => Seq::new(isos.len(), |i: int| copy_iso(sys, id, isos[i])),
        StorageModel::CloudImage(images) => Seq::new(
            images.len(),
            |i: int| create_overlay(sys, id, images[i]),
        ),
    }
}

/// The tasks that check storage.
pub open spec fn info_group(sys: SystemModel, id: FxIdModel, storage: StorageModel) -> Seq<
    TaskModel,
> {
    match storage {
        StorageModel::Qcow2(files) => Seq::new(
            files.len(),
            |i: int|
                TaskModel::InspectDisk { filename: disk_path(sys, id, files[i].0, files[i].1) },
        ),
        StorageModel::HostBlock(devices) => Seq::new(
            devices.len(),
            |i: int| TaskModel::HostBlock { path: devices[i].path@ },
        ),
        StorageModel::Iso(isos) => Seq::new(
            isos.len(),
            |i: int| TaskModel::FindIso { path: isos[i].path@ },
        ),
        StorageModel::CloudImage(images) => Seq::new(
            images.len(),
            |i: int|
                TaskModel::InspectOverlay {
                    overlay: overlay_path(sys, id, images[i].0),
                    source: images[i].0.path@,
                    writable: image_format(images[i].0.os_type) is Some,
                },
        ),
    }
}

/// The tasks of an operation on all storage of a machine.
pub open spec fn create_tasks(sys: SystemModel, id: FxIdModel, storage: Seq<StorageModel>) -> Seq<
    TaskModel,
> {
    concat(Seq::new(storage.len(), |i: int| create_group(sys, id, storage[i])))
}

/// The tasks that check all storage of a machine.
pub open spec fn info_tasks(sys: SystemModel, id: FxIdModel, storage: Seq<StorageModel>) -> Seq<
    TaskModel,
> {
    concat(Seq::new(storage.len(), |i: int| info_group(sys, id, storage[i])))
}

broadcast proof fn lemma_tasks_push(v: Seq<StorageTask>, t: StorageTask)
    ensures
        #[trigger] tasks_of(v.push(t)) == tasks_of(v).push(t@),
{
    assert(tasks_of(v.push(t)) =~= tasks_of(v).push(t@));
}

fn create_disk_task(
    system_configuration: &SystemConfiguration,
    fx_id: &FxId,
    file: &(StorageConfigurationDisk, QemuQcowFormat, QcowOptions),
) -> (r: StorageTask)
    ensures
        r@ == create_disk(system_configuration@, fx_id@, *file),
{
    let filename = qemu_disk_path(system_configuration, fx_id, &file.0, &file.1);
    let args = qemu_img_create(
        qemu_disk_format_arg(&file.1),
        filename.as_str(),
        Some(file.0.size),
        &file.2,
    );
    StorageTask::CreateDisk { dir: vm_data_dir(system_configuration, fx_id), filename, args }
}

fn create_overlay_task(
    system_configuration: &SystemConfiguration,
    fx_id: &FxId,
    image: &(StorageConfigurationCloudImage, QcowOptions),
) -> (r: StorageTask)
    ensures
        r@ == create_overlay(system_configuration@, fx_id@, *image),
{
    match os_image_format_arg(&image.0.os_type) {
        Some(format) => {
            let mut options = image.1.clone();
            if options.backing_file.is_none() {
                options.backing_file = Some(image.0.path.clone());
            }
            if options.backing_format.is_none() {
                options.backing_format = Some(format.to_owned());
            }
            let filename = cloud_image_overlay_path(system_configuration, fx_id, &image.0);
            let args = qemu_img_create(QEMU_IMG_FORMAT_QCOW2, filename.as_str(), None, &options);
            StorageTask::CreateOverlay {
                source: image.0.path.clone(),
                dir: vm_data_dir(system_configuration, fx_id),
                filename,
                args,
            }
        },
        None => StorageTask::Refuse {
            error: QemuStorageCreateError::UnsupportedStorage(
                "ISO cloud images cannot be used as writable disks",
            ),
        },
    }
}

fn push_create_group(
    tasks: &mut Vec<StorageTask>,
    system_configuration: &SystemConfiguration,
    fx_id: &FxId,
    storage: &QemuStorageType,
)
    ensures
        tasks_of(final(tasks)@) == tasks_of(old(tasks)@) + create_group(
            system_configuration@,
            fx_id@,
            storage@,
        ),
{
    broadcast use lemma_tasks_push;

    let ghost before = tasks_of(tasks@);
    let ghost group = create_group(system_configuration@, fx_id@, storage@);
    proof {
        assert(before + group.take(0) =~= before);
    }
    match storage {
        QemuStorageType::Qcow2(files) => {
            for i in 0..files.len()
                invariant
                    group == create_group(system_configuration@, fx_id@, storage@),
                    storage@ == StorageModel::Qcow2(files@),
                    tasks_of(tasks@) == before + group.take(i as int),
            {
                tasks.push(create_disk_task(system_configuration, fx_id, &files[i]));
                proof {
                    assert(before + group.take(i + 1) =~= (before + group.take(i as int)).push(
                        group[i as int],
                    ));
                }
            }
        },
        QemuStorageType::HostBlock(devices) => {
            for i in 0..devices.len()
                invariant
                    group == create_group(system_configuration@, fx_id@, storage@),
                    storage@ == StorageModel::HostBlock(devices@),
                    tasks_of(tasks@) == before + group.take(i as int),
            {
                tasks.push(StorageTask::HostBlock { path: devices[i].path.clone() });
                proof {
                    assert(before + group.take(i + 1) =~= (before + group.take(i as int)).push(
                        group[i as int],
                    ));
                }
            }
        },
        QemuStorageType::Iso(isos) => {
            for i in 0..isos.len()
                invariant
                    group == create_group(system_configuration@, fx_id@, storage@),
                    storage@ == StorageModel::Iso(isos@),
                    tasks_of(tasks@) == before + group.take(i as int),
            {
                tasks.push(
                    StorageTask::CopyIso {
                        dir: vm_data_dir(system_configuration, fx_id),
                        source: isos[i].path.clone(),
                        destination: iso_dest_path(system_configuration, fx_id, &isos[i]),
                    },
                );
                proof {
                    assert(before + group.take(i + 1) =~= (before + group.take(i as int)).push(
                        group[i as int],
                    ));
                }
            }
        },
        QemuStorageType::CloudImage(images) => {
            for i in 0..images.len()
                invariant
                    group == create_group(system_configuration@, fx_id@, storage@),
                    storage@ == StorageModel::CloudImage(images@),
                    tasks_of(tasks@) == before + group.take(i as int),
            {
                tasks.push(create_overlay_task(system_configuration, fx_id, &images[i]));
                proof {
                    assert(before + group.take(i + 1) =~= (before + group.take(i as int)).push(
                        group[i as int],
                    ));
                }
            }
        },
    }
    proof {
        assert(group.take(group.len() as int) =~= group);
    }
}

fn push_info_group(
    tasks: &mut Vec<StorageTask>,
    system_configuration: &SystemConfiguration,
    fx_id: &FxId,
    storage: &QemuStorageType,
)
    ensures
        tasks_of(final(tasks)@) == tasks_of(old(tasks)@) + info_group(
            system_configuration@,
            fx_id@,
            storage@,
        ),
{
    broadcast use lemma_tasks_push;

    let ghost before = tasks_of(tasks@);
    let ghost group = info_group(system_configuration@, fx_id@, storage@);
    proof {
        assert(before + group.take(0) =~= before);
    }
    match storage {
        QemuStorageType::Qcow2(files) => {
            for i in 0..files.len()
                invariant
                    group == info_group(system_configuration@, fx_id@, storage@),
                    storage@ == StorageModel::Qcow2(files@),
                    tasks_of(tasks@) == before + group.take(i as int),
            {
                tasks.push(
                    StorageTask::InspectDisk {
                        filename: qemu_disk_path(
                            system_configuration,
                            fx_id,
                            &files[i].0,
                            &files[i].1,
                        ),
                    },
                );
                proof {
                    assert(before + group.take(i + 1) =~= (before + group.take(i as int)).push(
                        group[i as int],
                    ));
                }
            }
        },
        QemuStorageType::HostBlock(devices) => {
            for i in 0..devices.len()
                invariant
                    group == info_group(system_configuration@, fx_id@, storage@),
                    storage@ == StorageModel::HostBlock(devices@),
                    tasks_of(tasks@) == before + group.take(i as int),
            {
                tasks.push(StorageTask::HostBlock { path: devices[i].path.clone() });
                proof {
                    assert(before + group.take(i + 1) =~= (before + group.take(i as int)).push(
                        group[i as int],
                    ));
                }
            }
        },
        QemuStorageType::Iso(isos) => {
            for i in 0..isos.len()
                invariant
                    group == info_group(system_configuration@, fx_id@, storage@),
                    storage@ == StorageModel::Iso(isos@),
                    tasks_of(tasks@) == before + group.take(i as int),
            {
                tasks.push(StorageTask::FindIso { path: isos[i].path.clone() });
                proof {
                    assert(before + group.take(i + 1) =~= (before + group.take(i as int)).push(
                        group[i as int],
                    ));
                }
            }
        },
        QemuStorageType::CloudImage(images) => {
            for i in 0..images.len()
                invariant
                    group == info_group(system_configuration@, fx_id@, storage@),
                    storage@ == StorageModel::CloudImage(images@),
                    tasks_of(tasks@) == before + group.take(i as int),
            {
                tasks.push(
                    StorageTask::InspectOverlay {
                        overlay: cloud_image_overlay_path(
                            system_configuration,
                            fx_id,
                            &images[i].0,
                        ),
                        source: images[i].0.path.clone(),
                        writable: os_image_format_arg(&images[i].0.os_type).is_some(),
                    },
                );
                proof {
                    assert(before + group.take(i + 1) =~= (before + group.take(i as int)).push(
                        group[i as int],
                    ));
                }
            }
        },
    }
    proof {
        assert(group.take(group.len() as int) =~= group);
    }
}

/// Begins to create the storage of a machine.
pub fn sys_storage_create(
    system_configuration: &SystemConfiguration,
    fx_id: &FxId,
    storage: &Vec<QemuStorageType>,
) -> (r: StorageRun)
    ensures
        r@ == run_of(r@.tasks),
        tasks_of(r@.tasks) == create_tasks(system_configuration@, fx_id@, storages(storage@)),
{
    let ghost groups = Seq::new(
        storage@.len(),
        |i: int| create_group(system_configuration@, fx_id@, storages(storage@)[i]),
    );
    let mut tasks: Vec<StorageTask> = Vec::new();
    proof {
        assert(tasks_of(tasks@) =~= concat(groups.take(0)));
    }
    for i in 0..storage.len()
        invariant
            groups == Seq::new(
                storage@.len(),
                |i: int| create_group(system_configuration@, fx_id@, storages(storage@)[i]),
            ),
            tasks_of(tasks@) == concat(groups.take(i as int)),
    {
        push_create_group(&mut tasks, system_configuration, fx_id, &storage[i]);
        proof {
            assert(groups.take(i + 1).drop_last() =~= groups.take(i as int));
        }
    }
    proof {
        assert(groups.take(groups.len() as int) =~= groups);
        assert(groups =~= Seq::new(
            storages(storage@).len(),
            |i: int| create_group(system_configuration@, fx_id@, storages(storage@)[i]),
        ));
    }
    StorageRun::new(tasks)
}

/// Begins to check the storage of a machine.
pub fn sys_storage_info(
    system_configuration: &SystemConfiguration,
    fx_id: &FxId,
    storage: &Vec<QemuStorageType>,
) -> (r: StorageRun)
    ensures
        r@ == run_of(r@.tasks),
        tasks_of(r@.tasks) == info_tasks(system_configuration@, fx_id@, storages(storage@)),
{
    let ghost groups = Seq::new(
        storage@.len(),
        |i: int| info_group(system_configuration@, fx_id@, storages(storage@)[i]),
    );
    let mut tasks: Vec<StorageTask> = Vec::new();
    proof {
        assert(tasks_of(tasks@) =~= concat(groups.take(0)));
    }
    for i in 0..storage.len()
        invariant
            groups == Seq::new(
                storage@.len(),
                |i: int| info_group(system_configuration@, fx_id@, storages(storage@)[i]),
            ),
            tasks_of(tasks@) == concat(groups.take(i as int)),
    {
        push_info_group(&mut tasks, system_configuration, fx_id, &storage[i]);
        proof {
            assert(groups.take(i + 1).drop_last() =~= groups.take(i as int));
        }
    }
    proof {
        assert(groups.take(groups.len() as int) =~= groups);
        assert(groups =~= Seq::new(
            storages(storage@).len(),
            |i: int| info_group(system_configuration@, fx_id@, storages(storage@)[i]),
        ));
    }
    StorageRun::new(tasks)
}

/// The task that gives a managed file the size of a request.
pub open spec fn resize_task(filename: Seq<char>, request: StorageResizeRequest) -> TaskModel {
    TaskModel::Resize {
        filename,
        args: img_resize_words(filename, request.new_size, request.dir is Shrink),
    }
}

/// The tasks that resize those of a row of disks that a request is for.
pub open spec fn resize_files(
    sys: SystemModel,
    id: FxIdModel,
    files: Seq<(StorageConfigurationDisk, QemuQcowFormat, QcowOptions)>,
    request: StorageResizeRequest,
) -> Seq<TaskModel>
    decreases files.len(),
{
    if files.len() == 0 {
        seq![]
    } else {
        let file = files.last();
        resize_files(sys, id, files.drop_last(), request) + if file.0.id@ == request.filepath.id@ {
            seq![resize_task(disk_path(sys, id, file.0, file.1), request)]
        } else {
            seq![]
        }
    }
}

/// The tasks that resize those of a row of overlays that a request is for.
pub open spec fn resize_images(
    sys: SystemModel,
    id: FxIdModel,
    images: Seq<(StorageConfigurationCloudImage, QcowOptions)>,
    request: StorageResizeRequest,
) -> Seq<TaskModel>
    decreases images.len(),
{
    if images.len() == 0 {
        seq![]
    } else {
        let image = images.last();
        resize_images(sys, id, images.drop_last(), request) + if image.0.id@
            == request.filepath.id@ {
            seq![resize_task(overlay_path(sys, id, image.0), request)]
        } else {
            seq![]
        }
    }
}

/// Whether one of a row of disks has an identifier.
pub open spec fn has_disk(devices: Seq<StorageConfigurationDisk>, id: Seq<char>) -> bool {
    exists|i: int| 0 <= i < devices.len() && (#[trigger] devices[i]).id@ == id
}

/// Whether one of a row of ISOs has an identifier.
pub open spec fn has_iso(isos: Seq<StorageConfigurationIso>, id: Seq<char>) -> bool {
    exists|i: int| 0 <= i < isos.len() && (#[trigger] isos[i]).id@ == id
}

/// The task that reports that storage cannot be resized.
pub open spec fn refuse(what: &'static str) -> TaskModel {
    TaskModel::Refuse { error: QemuStorageCreateError::UnsupportedStorage(what) }
}

/// The tasks that a resize request gives for one piece of storage.
pub open spec fn resize_group(
    sys: SystemModel,
    id: FxIdModel,
    storage: StorageModel,
    request: StorageResizeRequest,
) -> Seq<TaskModel> {
    match storage {
        StorageModel::Qcow2(files) => resize_files(sys, id, files, request),
        StorageModel::HostBlock(devices) => if has_disk(devices, request.filepath.id@) {
            seq![refuse("host block storage cannot be resized by qemu-img")]
        } else {
            seq![]
        },
        StorageModel::Iso(isos) => if has_iso(isos, request.filepath.id@) {
            seq![refuse("ISO storage cannot be resized")]
        } else {
            seq![]
        },
        StorageModel::CloudImage(images) => resize_images(sys, id, images, request),
    }
}

/// The tasks that a resize request gives for all storage of a machine.
pub open spec fn found_tasks(
    sys: SystemModel,
    id: FxIdModel,
    storage: Seq<StorageModel>,
    request: StorageResizeRequest,
) -> Seq<TaskModel> {
    concat(Seq::new(storage.len(), |i: int| resize_group(sys, id, storage[i], request)))
}

/// The tasks of a resize request; one that is for no storage is reported.
pub open spec fn request_tasks(
    sys: SystemModel,
    id: FxIdModel,
    storage: Seq<StorageModel>,
    request: StorageResizeRequest,
) -> Seq<TaskModel> {
    let found = found_tasks(sys, id, storage, request);
    if found.len() > 0 {
        found
    } else {
        seq![
            TaskModel::Refuse {
                error: QemuStorageCreateError::FileNotFound(request.filepath.path),
            },
        ]
    }
}

/// The tasks of a row of resize requests.
pub open spec fn resize_tasks(
    sys: SystemModel,
    id: FxIdModel,
    storage: Seq<StorageModel>,
    requests: Seq<StorageResizeRequest>,
) -> Seq<TaskModel> {
    concat(Seq::new(requests.len(), |i: int| request_tasks(sys, id, storage, requests[i])))
}

fn push_resize(tasks: &mut Vec<StorageTask>, filename: String, request: &StorageResizeRequest)
    ensures
        tasks_of(final(tasks)@) == tasks_of(old(tasks)@).push(resize_task(filename@, *request)),
{
    broadcast use lemma_tasks_push;

    let shrink = match request.dir {
        StorageResizeRequestDirection::Shrink => true,
        StorageResizeRequestDirection::Grow => false,
    };
    let args = qemu_img_resize(filename.as_str(), request.new_size, shrink);
    tasks.push(StorageTask::Resize { filename, args });
}

fn push_resize_group(
    tasks: &mut Vec<StorageTask>,
    system_configuration: &SystemConfiguration,
    fx_id: &FxId,
    storage: &QemuStorageType,
    request: &StorageResizeRequest,
)
    ensures
        tasks_of(final(tasks)@) == tasks_of(old(tasks)@) + resize_group(
            system_configuration@,
            fx_id@,
            storage@,
            *request,
        ),
{
    broadcast use lemma_tasks_push;

    let ghost before = tasks_of(tasks@);
    let ghost sys = system_configuration@;
    let ghost id = fx_id@;
    match storage {
        QemuStorageType::Qcow2(files) => {
            proof {
                assert(before + resize_files(sys, id, files@.take(0), *request) =~= before);
            }
            for i in 0..files.len()
                invariant
                    sys == system_configuration@,
                    id == fx_id@,
                    tasks_of(tasks@) == before + resize_files(
                        sys,
                        id,
                        files@.take(i as int),
                        *request,
                    ),
            {
                if files[i].0.id == request.filepath.id {
                    push_resize(
                        tasks,
                        qemu_disk_path(system_configuration, fx_id, &files[i].0, &files[i].1),
                        request,
                    );
                }
                proof {
                    assert(files@.take(i + 1).drop_last() =~= files@.take(i as int));
                    assert(files@.take(i + 1).last() == files@[i as int]);
                    assert(tasks_of(tasks@) =~= before + resize_files(
                        sys,
                        id,
                        files@.take(i + 1),
                        *request,
                    ));
                }
            }
            proof {
                assert(files@.take(files@.len() as int) =~= files@);
            }
        },
        QemuStorageType::HostBlock(devices) => {
            let mut found = false;
            for i in 0..devices.len()
                invariant
                    found == exists|j: int|
                        0 <= j < i && (#[trigger] devices@[j]).id@ == request.filepath.id@,
            {
                if devices[i].id == request.filepath.id {
                    found = true;
                }
            }
            if found {
                tasks.push(
                    StorageTask::Refuse {
                        error: QemuStorageCreateError::UnsupportedStorage(
                            "host block storage cannot be resized by qemu-img",
                        ),
                    },
                );
            }
            proof {
                assert(found == has_disk(devices@, request.filepath.id@));
                assert(tasks_of(tasks@) =~= before + resize_group(sys, id, storage@, *request));
            }
        },
        QemuStorageType::Iso(isos) => {
            let mut found = false;
            for i in 0..isos.len()
                invariant
                    found == exists|j: int|
                        0 <= j < i && (#[trigger] isos@[j]).id@ == request.filepath.id@,
            {
                if isos[i].id == request.filepath.id {
                    found = true;
                }
            }
            if found {
                tasks.push(
                    StorageTask::Refuse {
                        error: QemuStorageCreateError::UnsupportedStorage(
                            "ISO storage cannot be resized",
                        ),
                    },
                );
            }
            proof {
                assert(found == has_iso(isos@, request.filepath.id@));
                assert(tasks_of(tasks@) =~= before + resize_group(sys, id, storage@, *request));
            }
        },
        QemuStorageType::CloudImage(images) => {
            proof {
                assert(before + resize_images(sys, id, images@.take(0), *request) =~= before);
            }
            for i in 0..images.len()
                invariant
                    sys == system_configuration@,
                    id == fx_id@,
                    tasks_of(tasks@) == before + resize_images(
                        sys,
                        id,
                        images@.take(i as int),
                        *request,
                    ),
            {
                if images[i].0.id == request.filepath.id {
                    push_resize(
                        tasks,
                        cloud_image_overlay_path(system_configuration, fx_id, &images[i].0),
                        request,
                    );
                }
                proof {
                    assert(images@.take(i + 1).drop_last() =~= images@.take(i as int));
                    assert(images@.take(i + 1).last() == images@[i as int]);
                    assert(tasks_of(tasks@) =~= before + resize_images(
                        sys,
                        id,
                        images@.take(i + 1),
                        *request,
                    ));
                }
            }
            proof {
                assert(images@.take(images@.len() as int) =~= images@);
            }
        },
    }
}

fn push_request(
    tasks: &mut Vec<StorageTask>,
    system_configuration: &SystemConfiguration,
    fx_id: &FxId,
    storage: &Vec<QemuStorageType>,
    request: &StorageResizeRequest,
)
    ensures
        tasks_of(final(tasks)@) == tasks_of(old(tasks)@) + request_tasks(
            system_configuration@,
            fx_id@,
            storages(storage@),
            *request,
        ),
{
    broadcast use lemma_tasks_push;

    let ghost before = tasks_of(tasks@);
    let n: usize = tasks.len();
    let ghost groups = Seq::new(
        storages(storage@).len(),
        |i: int|
            resize_group(system_configuration@, fx_id@, storages(storage@)[i], *request),
    );
    proof {
        assert(before + concat(groups.take(0)) =~= before);
    }
    for i in 0..storage.len()
        invariant
            groups == Seq::new(
                storages(storage@).len(),
                |i: int|
                    resize_group(system_configuration@, fx_id@, storages(storage@)[i], *request),
            ),
            tasks_of(tasks@) == before + concat(groups.take(i as int)),
    {
        push_resize_group(tasks, system_configuration, fx_id, &storage[i], request);
        proof {
            assert(groups.take(i + 1).drop_last() =~= groups.take(i as int));
            assert(tasks_of(tasks@) =~= before + concat(groups.take(i + 1)));
        }
    }
    proof {
        assert(groups.take(groups.len() as int) =~= groups);
        assert(tasks@.len() == tasks_of(tasks@).len());
    }
    if tasks.len() == n {
        tasks.push(
            StorageTask::Refuse {
                error: QemuStorageCreateError::FileNotFound(request.filepath.path.clone()),
            },
        );
    }
    proof {
        assert(tasks_of(tasks@) =~= before + request_tasks(
            system_configuration@,
            fx_id@,
            storages(storage@),
            *request,
        ));
    }
}

/// Begins to resize the storage of a machine.
pub fn sys_storage_resize(
    system_configuration: &SystemConfiguration,
    fx_id: &FxId,
    storage: &Vec<QemuStorageType>,
    resize_requests: &Vec<StorageResizeRequest>,
) -> (r: StorageRun)
    ensures
        r@ == run_of(r@.tasks),
        tasks_of(r@.tasks) == resize_tasks(
            system_configuration@,
            fx_id@,
            storages(storage@),
            resize_requests@,
        ),
{
    let ghost groups = Seq::new(
        resize_requests@.len(),
        |i: int|
            request_tasks(system_configuration@, fx_id@, storages(storage@), resize_requests@[i]),
    );
    let mut tasks: Vec<StorageTask> = Vec::new();
    proof {
        assert(tasks_of(tasks@) =~= concat(groups.take(0)));
    }
    for i in 0..resize_requests.len()
        invariant
            groups == Seq::new(
                resize_requests@.len(),
                |i: int|
                    request_tasks(
                        system_configuration@,
                        fx_id@,
                        storages(storage@),
                        resize_requests@[i],
                    ),
            ),
            tasks_of(tasks@) == concat(groups.take(i as int)),
    {
        push_request(&mut tasks, system_configuration, fx_id, storage, &resize_requests[i]);
        proof {
            assert(groups.take(i + 1).drop_last() =~= groups.take(i as int));
        }
    }
    proof {
        assert(groups.take(groups.len() as int) =~= groups);
    }
    StorageRun::new(tasks)
}

impl QemuMachineConfiguration {
    /// Begins to check the storage of the machine.
    pub fn sys_storage_info(&self, fx_id: &FxId) -> (r: StorageRun)
        ensures
            r@ == run_of(r@.tasks),
            tasks_of(r@.tasks) == info_tasks(self@.system_configuration, fx_id@, self@.storage),
    {
        sys_storage_info(&self.system_configuration, fx_id, &self.storage)
    }

    /// Begins to check the storage of the machine.
    pub fn sys_storage_check(&self, fx_id: &FxId) -> (r: StorageRun)
        ensures
            r@ == run_of(r@.tasks),
            tasks_of(r@.tasks) == info_tasks(self@.system_configuration, fx_id@, self@.storage),
    {
        self.sys_storage_info(fx_id)
    }

    /// Begins to create the storage of the machine.
    pub fn sys_storage_create(&self, fx_id: &FxId) -> (r: StorageRun)
        ensures
            r@ == run_of(r@.tasks),
            tasks_of(r@.tasks) == create_tasks(self@.system_configuration, fx_id@, self@.storage),
    {
        sys_storage_create(&self.system_configuration, fx_id, &self.storage)
    }

    /// Begins to open the storage of the machine, which is to check it.
    pub fn sys_storage_open(&self, fx_id: &FxId) -> (r: StorageRun)
        ensures
            r@ == run_of(r@.tasks),
            tasks_of(r@.tasks) == info_tasks(self@.system_configuration, fx_id@, self@.storage),
    {
        self.sys_storage_check(fx_id)
    }

    /// Begins to close the storage of the machine, which is to check it.
    pub fn sys_storage_close(&self, fx_id: &FxId) -> (r: StorageRun)
        ensures
            r@ == run_of(r@.tasks),
            tasks_of(r@.tasks) == info_tasks(self@.system_configuration, fx_id@, self@.storage),
    {
        self.sys_storage_check(fx_id)
    }

    /// Begins to resize the storage of the machine.
    pub fn sys_storage_resize(&self, fx_id: &FxId, resize_requests: &Vec<StorageResizeRequest>) -> (r:
        StorageRun)
        ensures
            r@ == run_of(r@.tasks),
            tasks_of(r@.tasks) == resize_tasks(
                self@.system_configuration,
                fx_id@,
                self@.storage,
                resize_requests@,
            ),
    {
        sys_storage_resize(&self.system_configuration, fx_id, &self.storage, resize_requests)
    }
}

/// How many questions a task can still ask after this one.
pub open spec fn ask_rank(ask: StorageAsk) -> nat {
    match ask {
        StorageAsk::SourceExists => 3,
        StorageAsk::MakeDir => 2,
        StorageAsk::TargetExists => 1,
        _ => 0,
    }
}

/// Whether a task asks a question, first or later.
pub open spec fn fits(task: StorageTask, ask: StorageAsk) -> bool {
    asked_action(task@, ask) != ActionModel::Nothing || (task is Refuse && ask is Report)
}

/// Each question that a task asks is one of its own, and each answer either
/// ends the task or leads to a question nearer to its end: a task takes at most
/// four actions.
pub proof fn law_storage_task_ends(
    task: StorageTask,
    ask: StorageAsk,
    answer: Result<bool, StorageFailure>,
)
    ensures
        fits(task, first_ask(task)),
        ask_rank(ask) <= 3,
        task_next(task, ask, answer) matches TaskStep::Ask(next) ==> ask_rank(next) < ask_rank(ask)
            && fits(task, next),
{
}

/// What a world answers to each action.
pub type World = spec_fn(ActionModel) -> Result<bool, StorageFailure>;

/// The error that a task ends with in a world, from one of its questions on.
pub open spec fn task_error(task: StorageTask, ask: StorageAsk, world: World) -> Option<
    QemuStorageCreateError,
>
    decreases ask_rank(ask),
{
    match task_next(task, ask, world(asked_action(task@, ask))) {
        TaskStep::Ask(next) => if ask_rank(next) < ask_rank(ask) {
            task_error(task, next, world)
        } else {
            None
        },
        TaskStep::Done(error) => error,
    }
}

/// The errors that the tasks from a place on end with in a world.
pub open spec fn errors_from(tasks: Seq<StorageTask>, at: int, world: World) -> Seq<
    QemuStorageCreateError,
>
    decreases tasks.len() - at,
{
    if 0 <= at < tasks.len() {
        with_error(seq![], task_error(tasks[at], first_ask(tasks[at]), world)) + errors_from(
            tasks,
            at + 1,
            world,
        )
    } else {
        seq![]
    }
}

/// An operation carried to its end in a world.
pub open spec fn carried_out(run: RunModel, world: World) -> RunModel
    decreases run.tasks.len() - run.at, ask_rank(run.ask),
{
    if 0 <= run.at < run.tasks.len() {
        let next = run.after(world(asked_action(run.tasks[run.at]@, run.ask)));
        if next.at > run.at || ask_rank(next.ask) < ask_rank(run.ask) {
            carried_out(next, world)
        } else {
            run
        }
    } else {
        run
    }
}

proof fn lemma_carried_out(run: RunModel, world: World)
    requires
        0 <= run.at <= run.tasks.len(),
    ensures
        carried_out(run, world).at == run.tasks.len(),
        carried_out(run, world).tasks == run.tasks,
        carried_out(run, world).errors == (if run.at < run.tasks.len() {
            with_error(run.errors, task_error(run.tasks[run.at], run.ask, world)) + errors_from(
                run.tasks,
                run.at + 1,
                world,
            )
        } else {
            run.errors
        }),
    decreases run.tasks.len() - run.at, ask_rank(run.ask),
{
    if run.at < run.tasks.len() {
        let task = run.tasks[run.at];
        let answer = world(asked_action(task@, run.ask));
        let next = run.after(answer);
        law_storage_task_ends(task, run.ask, answer);
        lemma_carried_out(next, world);
        match task_next(task, run.ask, answer) {
            TaskStep::Ask(ask) => {
                assert(next == RunModel { ask, ..run });
            },
            TaskStep::Done(error) => {
                let errors = with_error(run.errors, error);
                if next.at < run.tasks.len() {
                    let e = task_error(run.tasks[next.at], next.ask, world);
                    assert(with_error(errors, e) + errors_from(run.tasks, next.at + 1, world)
                        =~= errors + errors_from(run.tasks, next.at, world));
                } else {
                    assert(errors =~= errors + errors_from(run.tasks, next.at, world));
                }
            },
        }
    }
}

/// An operation takes all its tasks to their end and reports exactly their
/// errors, in the order of the tasks; it succeeds when no task has one.
pub proof fn law_storage_reports_all_errors(tasks: Seq<StorageTask>, world: World)
    ensures
        carried_out(run_of(tasks), world).at == tasks.len(),
        carried_out(run_of(tasks), world).errors == errors_from(tasks, 0, world),
        carried_out(run_of(tasks), world).errors.len() == 0 <==> forall|i: int|
            0 <= i < tasks.len() ==> task_error(
                #[trigger] tasks[i],
                first_ask(tasks[i]),
                world,
            ) is None,
{
    let run = run_of(tasks);
    lemma_carried_out(run, world);
    if tasks.len() > 0 {
        let e = task_error(tasks[0], first_ask(tasks[0]), world);
        assert(with_error(seq![], e) + errors_from(tasks, 1, world) =~= errors_from(
            tasks,
            0,
            world,
        ));
    } else {
        assert(errors_from(tasks, 0, world) =~= Seq::<QemuStorageCreateError>::empty());
    }
    lemma_no_errors(tasks, 0, world);
}

proof fn lemma_no_errors(tasks: Seq<StorageTask>, at: int, world: World)
    requires
        0 <= at <= tasks.len(),
    ensures
        errors_from(tasks, at, world).len() == 0 <==> forall|i: int|
            at <= i < tasks.len() ==> task_error(
                #[trigger] tasks[i],
                first_ask(tasks[i]),
                world,
            ) is None,
    decreases tasks.len() - at,
{
    if at < tasks.len() {
        lemma_no_errors(tasks, at + 1, world);
        let e = task_error(tasks[at], first_ask(tasks[at]), world);
        assert(with_error(seq![], e).len() == if e is Some {
            1int
        } else {
            0
        });
    }
}

/// The model of the error that a task ends with.
spec fn error_model(error: Option<QemuStorageCreateError>) -> Option<StorageErrorModel> {
    match error {
        Some(err) => Some(err@),
        None => None,
    }
}

/// Tasks with one model end with one error.
proof fn lemma_error_by_model(s: StorageTask, t: StorageTask, ask: StorageAsk, world: World)
    requires
        s@ == t@,
    ensures
        first_ask(s) == first_ask(t),
        error_model(task_error(s, ask, world)) == error_model(task_error(t, ask, world)),
    decreases ask_rank(ask),
{
    let answer = world(asked_action(s@, ask));
    match task_next(s, ask, answer) {
        TaskStep::Ask(next) => {
            law_storage_task_ends(s, ask, answer);
            assert(task_next(t, ask, answer) == TaskStep::Ask(next));
            lemma_error_by_model(s, t, next, world);
        },
        TaskStep::Done(_) => {},
    }
}

/// The errors of joined tasks, from a place on.
proof fn lemma_joined_errors(
    a: Seq<StorageTask>,
    b: Seq<StorageTask>,
    joined: Seq<StorageTask>,
    at: int,
    world: World,
)
    requires
        tasks_of(joined) == tasks_of(a) + tasks_of(b),
        0 <= at <= joined.len(),
    ensures
        storage_errors(errors_from(joined, at, world)) == (if at < a.len() {
            storage_errors(errors_from(a, at, world)) + storage_errors(errors_from(b, 0, world))
        } else {
            storage_errors(errors_from(b, at - a.len(), world))
        }),
    decreases joined.len() - at,
{
    assert(tasks_of(joined).len() == joined.len());
    assert((tasks_of(a) + tasks_of(b)).len() == a.len() + b.len());
    if at < joined.len() {
        lemma_joined_errors(a, b, joined, at + 1, world);
        let task = if at < a.len() {
            a[at]
        } else {
            b[at - a.len()]
        };
        assert(tasks_of(joined)[at] == (tasks_of(a) + tasks_of(b))[at]);
        lemma_error_by_model(joined[at], task, first_ask(task), world);
        let e = with_error(seq![], task_error(joined[at], first_ask(joined[at]), world));
        let f = with_error(seq![], task_error(task, first_ask(task), world));
        assert(storage_errors(e) =~= storage_errors(f));
        let rest = errors_from(joined, at + 1, world);
        assert(storage_errors(e + rest) =~= storage_errors(e) + storage_errors(rest));
        if at < a.len() {
            let own = errors_from(a, at + 1, world);
            assert(storage_errors(f + own) =~= storage_errors(f) + storage_errors(own));
            if at + 1 == a.len() {
                assert(storage_errors(own) =~= Seq::<StorageErrorModel>::empty());
            }
        } else {
            let own = errors_from(b, at + 1 - a.len(), world);
            assert(storage_errors(f + own) =~= storage_errors(f) + storage_errors(own));
        }
    }
}

/// Rows of tasks after another, joined with more of them.
proof fn lemma_concat_add(a: Seq<Seq<TaskModel>>, b: Seq<Seq<TaskModel>>)
    ensures
        concat(a + b) == concat(a) + concat(b),
    decreases b.len(),
{
    if b.len() == 0 {
        assert(a + b =~= a);
        assert(concat(a) + concat(b) =~= concat(a));
    } else {
        lemma_concat_add(a, b.drop_last());
        assert((a + b).drop_last() =~= a + b.drop_last());
        assert((a + b).last() == b.last());
        assert(concat(a + b) =~= concat(a) + concat(b));
    }
}

/// The check of joined storage is the check of the one followed by that of the
/// other: in one and the same world it reports the errors of the first and then
/// those of the second, whatever failed before. The three rows of tasks are
/// those that a check of `a`, of `b` and of both begins with.
pub proof fn law_check_errors_add_up(
    sys: SystemModel,
    id: FxIdModel,
    a: Seq<StorageModel>,
    b: Seq<StorageModel>,
    tasks_a: Seq<StorageTask>,
    tasks_b: Seq<StorageTask>,
    tasks_joined: Seq<StorageTask>,
    world: World,
)
    requires
        tasks_of(tasks_a) == info_tasks(sys, id, a),
        tasks_of(tasks_b) == info_tasks(sys, id, b),
        tasks_of(tasks_joined) == info_tasks(sys, id, a + b),
    ensures
        info_tasks(sys, id, a + b) == info_tasks(sys, id, a) + info_tasks(sys, id, b),
        storage_errors(errors_from(tasks_joined, 0, world)) == storage_errors(
            errors_from(tasks_a, 0, world),
        ) + storage_errors(errors_from(tasks_b, 0, world)),
        storage_errors(carried_out(run_of(tasks_joined), world).errors) == storage_errors(
            carried_out(run_of(tasks_a), world).errors,
        ) + storage_errors(carried_out(run_of(tasks_b), world).errors),
{
    let group = |storage: Seq<StorageModel>|
        Seq::new(storage.len(), |i: int| info_group(sys, id, storage[i]));
    assert(group(a + b) =~= group(a) + group(b));
    lemma_concat_add(group(a), group(b));
    lemma_joined_errors(tasks_a, tasks_b, tasks_joined, 0, world);
    if tasks_a.len() == 0 {
        assert(storage_errors(errors_from(tasks_a, 0, world)) + storage_errors(
            errors_from(tasks_b, 0, world),
        ) =~= storage_errors(errors_from(tasks_b, 0, world)));
    }
    law_storage_reports_all_errors(tasks_a, world);
    law_storage_reports_all_errors(tasks_b, world);
    law_storage_reports_all_errors(tasks_joined, world);
}

/// Whether the image of a disk is there and sound, or is not there and
/// `qemu-img`, run with the given arguments, makes it with success.
pub open spec fn image_provided(filename: Seq<char>, args: Seq<Seq<char>>, world: World) -> bool {
    match world(ActionModel::Exists(filename)) {
        Ok(found) => if found {
            world(ActionModel::Inspect(img_info_words(filename))) == Ok::<bool, StorageFailure>(
                false,
            )
        } else {
            world(ActionModel::RunImg(args)) == Ok::<bool, StorageFailure>(true)
        },
        Err(_) => false,
    }
}

/// Creating a disk is without error exactly when its directory can be made and
/// either the image is there and sound, or it is not there and `qemu-img` makes
/// it with success.
pub proof fn law_disk_creation(dir: String, filename: String, args: Vec<String>, world: World)
    ensures
        task_error(
            StorageTask::CreateDisk { dir, filename, args },
            StorageAsk::MakeDir,
            world,
        ) is None <==> world(ActionModel::CreateDir(dir@)) is Ok && image_provided(
            filename@,
            texts(args@),
            world,
        ),
{
    reveal_with_fuel(task_error, 4);
}

/// Creating the overlay of a cloud image is without error exactly when the
/// image is there, the directory can be made, and the overlay is there and
/// sound or is made with success.
pub proof fn law_overlay_creation(
    source: String,
    dir: String,
    filename: String,
    args: Vec<String>,
    world: World,
)
    ensures
        task_error(
            StorageTask::CreateOverlay { source, dir, filename, args },
            StorageAsk::SourceExists,
            world,
        ) is None <==> world(ActionModel::Exists(source@)) == Ok::<bool, StorageFailure>(true)
            && world(ActionModel::CreateDir(dir@)) is Ok && image_provided(
            filename@,
            texts(args@),
            world,
        ),
{
    reveal_with_fuel(task_error, 5);
}

/// Resizing a managed file is without error exactly when `qemu-img` exits with
/// success.
pub proof fn law_resize_outcome(filename: String, args: Vec<String>, world: World)
    ensures
        task_error(StorageTask::Resize { filename, args }, StorageAsk::RunImg, world) is None <==> (
        world(ActionModel::RunImg(texts(args@))) == Ok::<bool, StorageFailure>(true)),
{
}

proof fn lemma_concat_from(groups: Seq<Seq<TaskModel>>, t: TaskModel)
    requires
        concat(groups).contains(t),
    ensures
        exists|i: int| 0 <= i < groups.len() && (#[trigger] groups[i]).contains(t),
    decreases groups.len(),
{
    if groups.len() > 0 {
        let init = concat(groups.drop_last());
        let k = choose|k: int| 0 <= k < concat(groups).len() && concat(groups)[k] == t;
        if k < init.len() {
            assert(init[k] == t);
            lemma_concat_from(groups.drop_last(), t);
            let i = choose|i: int|
                0 <= i < groups.drop_last().len() && (#[trigger] groups.drop_last()[i]).contains(t);
            assert(groups[i].contains(t));
        } else {
            assert(groups.last()[k - init.len()] == t);
            assert(groups[groups.len() - 1].contains(t));
        }
    }
}

proof fn lemma_concat_holds(groups: Seq<Seq<TaskModel>>, i: int, t: TaskModel)
    requires
        0 <= i < groups.len(),
        groups[i].contains(t),
    ensures
        concat(groups).contains(t),
    decreases groups.len(),
{
    let init = concat(groups.drop_last());
    if i == groups.len() - 1 {
        let k = choose|k: int| 0 <= k < groups[i].len() && groups[i][k] == t;
        assert(concat(groups)[init.len() + k] == t);
    } else {
        lemma_concat_holds(groups.drop_last(), i, t);
        let k = choose|k: int| 0 <= k < init.len() && init[k] == t;
        assert(concat(groups)[k] == t);
    }
}

proof fn lemma_resize_files(
    sys: SystemModel,
    id: FxIdModel,
    files: Seq<(StorageConfigurationDisk, QemuQcowFormat, QcowOptions)>,
    request: StorageResizeRequest,
    t: TaskModel,
)
    requires
        resize_files(sys, id, files, request).contains(t),
    ensures
        exists|i: int|
            0 <= i < files.len() && (#[trigger] files[i]).0.id@ == request.filepath.id@ && t
                == resize_task(disk_path(sys, id, files[i].0, files[i].1), request),
    decreases files.len(),
{
    if files.len() > 0 {
        let init = files.drop_last();
        let front = resize_files(sys, id, init, request);
        let all = resize_files(sys, id, files, request);
        let k = choose|k: int| 0 <= k < all.len() && all[k] == t;
        if k < front.len() {
            assert(front[k] == t);
            lemma_resize_files(sys, id, init, request, t);
            let i = choose|i: int|
                0 <= i < init.len() && (#[trigger] init[i]).0.id@ == request.filepath.id@ && t
                    == resize_task(disk_path(sys, id, init[i].0, init[i].1), request);
            assert(files[i] == init[i]);
        } else {
            assert(files[files.len() - 1] == files.last());
        }
    }
}

proof fn lemma_resize_images(
    sys: SystemModel,
    id: FxIdModel,
    images: Seq<(StorageConfigurationCloudImage, QcowOptions)>,
    request: StorageResizeRequest,
    t: TaskModel,
)
    requires
        resize_images(sys, id, images, request).contains(t),
    ensures
        exists|i: int|
            0 <= i < images.len() && (#[trigger] images[i]).0.id@ == request.filepath.id@ && t
                == resize_task(overlay_path(sys, id, images[i].0), request),
    decreases images.len(),
{
    if images.len() > 0 {
        let init = images.drop_last();
        let front = resize_images(sys, id, init, request);
        let all = resize_images(sys, id, images, request);
        let k = choose|k: int| 0 <= k < all.len() && all[k] == t;
        if k < front.len() {
            assert(front[k] == t);
            lemma_resize_images(sys, id, init, request, t);
            let i = choose|i: int|
                0 <= i < init.len() && (#[trigger] init[i]).0.id@ == request.filepath.id@ && t
                    == resize_task(overlay_path(sys, id, init[i].0), request);
            assert(images[i] == init[i]);
        } else {
            assert(images[images.len() - 1] == images.last());
        }
    }
}

/// Whether a task resizes a managed file of the given storage that has the
/// identifier of the request.
pub open spec fn resizes_named_file(
    sys: SystemModel,
    id: FxIdModel,
    storage: StorageModel,
    request: StorageResizeRequest,
    t: TaskModel,
) -> bool {
    match storage {
        StorageModel::Qcow2(files) => exists|i: int|
            0 <= i < files.len() && (#[trigger] files[i]).0.id@ == request.filepath.id@ && t
                == resize_task(disk_path(sys, id, files[i].0, files[i].1), request),
        StorageModel::CloudImage(images) => exists|i: int|
            0 <= i < images.len() && (#[trigger] images[i]).0.id@ == request.filepath.id@ && t
                == resize_task(overlay_path(sys, id, images[i].0), request),
        _ => false,
    }
}

/// A resize request only ever resizes managed files with its identifier, to its
/// size, and shrinks them only when it says so; and every request gives at
/// least one task, so none goes unanswered.
pub proof fn law_resize_only_named_files(
    sys: SystemModel,
    id: FxIdModel,
    storage: Seq<StorageModel>,
    request: StorageResizeRequest,
    t: TaskModel,
)
    requires
        request_tasks(sys, id, storage, request).contains(t),
        t is Resize,
    ensures
        exists|i: int|
            0 <= i < storage.len() && resizes_named_file(
                sys,
                id,
                #[trigger] storage[i],
                request,
                t,
            ),
{
    let groups = Seq::new(storage.len(), |i: int| resize_group(sys, id, storage[i], request));
    assert(found_tasks(sys, id, storage, request).contains(t));
    lemma_concat_from(groups, t);
    let i = choose|i: int| 0 <= i < groups.len() && (#[trigger] groups[i]).contains(t);
    match storage[i] {
        StorageModel::Qcow2(files) => {
            lemma_resize_files(sys, id, files, request, t);
        },
        StorageModel::CloudImage(images) => {
            lemma_resize_images(sys, id, images, request, t);
        },
        _ => {},
    }
    assert(resizes_named_file(sys, id, storage[i], request, t));
}

/// A resize request for a host block device or an ISO is refused, and one that
/// is for no storage is reported as not found.
pub proof fn law_resize_refusals(
    sys: SystemModel,
    id: FxIdModel,
    storage: Seq<StorageModel>,
    request: StorageResizeRequest,
    i: int,
)
    requires
        0 <= i < storage.len(),
    ensures
        request_tasks(sys, id, storage, request).len() > 0,
        storage[i] matches StorageModel::HostBlock(devices) && has_disk(
            devices,
            request.filepath.id@,
        ) ==> request_tasks(sys, id, storage, request).contains(
            refuse("host block storage cannot be resized by qemu-img"),
        ),
        storage[i] matches StorageModel::Iso(isos) && has_iso(isos, request.filepath.id@)
            ==> request_tasks(sys, id, storage, request).contains(
            refuse("ISO storage cannot be resized"),
        ),
{
    let groups = Seq::new(storage.len(), |i: int| resize_group(sys, id, storage[i], request));
    let group = groups[i];
    match storage[i] {
        StorageModel::HostBlock(devices) => {
            if has_disk(devices, request.filepath.id@) {
                assert(group[0] == refuse("host block storage cannot be resized by qemu-img"));
                lemma_concat_holds(
                    groups,
                    i,
                    refuse("host block storage cannot be resized by qemu-img"),
                );
            }
        },
        StorageModel::Iso(isos) => {
            if has_iso(isos, request.filepath.id@) {
                assert(group[0] == refuse("ISO storage cannot be resized"));
                lemma_concat_holds(groups, i, refuse("ISO storage cannot be resized"));
            }
        },
        _ => {},
    }
}

/// Every task of a resize request that resizes a file runs `qemu-img` on that
/// file with the size of the request, and allows it to shrink exactly where
/// the request is to shrink.
pub proof fn law_resize_to_requested_size(
    sys: SystemModel,
    id: FxIdModel,
    storage: Seq<StorageModel>,
    request: StorageResizeRequest,
    t: TaskModel,
)
    requires
        request_tasks(sys, id, storage, request).contains(t),
        t is Resize,
    ensures
        t matches TaskModel::Resize { filename, args } && args == (match request.dir {
            StorageResizeRequestDirection::Shrink => seq![
                "resize"@,
                "--shrink"@,
                filename,
                decimal(request.new_size as nat),
            ],
            StorageResizeRequestDirection::Grow => seq![
                "resize"@,
                filename,
                decimal(request.new_size as nat),
            ],
        }),
{
    law_resize_only_named_files(sys, id, storage, request, t);
    let i = choose|i: int|
        0 <= i < storage.len() && resizes_named_file(sys, id, #[trigger] storage[i], request, t);
}

/// Every managed file with the identifier of a resize request is resized: each
/// of those disks and overlays has its task.
pub proof fn law_named_files_are_resized(
    sys: SystemModel,
    id: FxIdModel,
    storage: Seq<StorageModel>,
    request: StorageResizeRequest,
    i: int,
    j: int,
)
    requires
        0 <= i < storage.len(),
    ensures
        match storage[i] {
            StorageModel::Qcow2(files) => 0 <= j < files.len() && files[j].0.id@
                == request.filepath.id@ ==> exists|t: TaskModel| #[trigger]
                request_tasks(sys, id, storage, request).contains(t) && t is Resize
                    && t->Resize_filename == disk_path(sys, id, files[j].0, files[j].1),
            StorageModel::CloudImage(images) => 0 <= j < images.len() && images[j].0.id@
                == request.filepath.id@ ==> exists|t: TaskModel| #[trigger]
                request_tasks(sys, id, storage, request).contains(t) && t is Resize
                    && t->Resize_filename == overlay_path(sys, id, images[j].0),
            _ => true,
        },
{
    let groups = Seq::new(storage.len(), |i: int| resize_group(sys, id, storage[i], request));
    match storage[i] {
        StorageModel::Qcow2(files) => {
            if 0 <= j < files.len() && files[j].0.id@ == request.filepath.id@ {
                let t = resize_task(disk_path(sys, id, files[j].0, files[j].1), request);
                lemma_resizes_file(sys, id, files, request, j);
                lemma_concat_holds(groups, i, t);
                assert(request_tasks(sys, id, storage, request).contains(t));
            }
        },
        StorageModel::CloudImage(images) => {
            if 0 <= j < images.len() && images[j].0.id@ == request.filepath.id@ {
                let t = resize_task(overlay_path(sys, id, images[j].0), request);
                lemma_resizes_image(sys, id, images, request, j);
                lemma_concat_holds(groups, i, t);
                assert(request_tasks(sys, id, storage, request).contains(t));
            }
        },
        _ => {},
    }
}

proof fn lemma_resizes_file(
    sys: SystemModel,
    id: FxIdModel,
    files: Seq<(StorageConfigurationDisk, QemuQcowFormat, QcowOptions)>,
    request: StorageResizeRequest,
    j: int,
)
    requires
        0 <= j < files.len(),
        files[j].0.id@ == request.filepath.id@,
    ensures
        resize_files(sys, id, files, request).contains(
            resize_task(disk_path(sys, id, files[j].0, files[j].1), request),
        ),
    decreases files.len(),
{
    let t = resize_task(disk_path(sys, id, files[j].0, files[j].1), request);
    let front = resize_files(sys, id, files.drop_last(), request);
    let all = resize_files(sys, id, files, request);
    if j == files.len() - 1 {
        assert(all[front.len() as int] == t);
    } else {
        lemma_resizes_file(sys, id, files.drop_last(), request, j);
        let k = choose|k: int| 0 <= k < front.len() && front[k] == t;
        assert(all[k] == t);
    }
}

proof fn lemma_resizes_image(
    sys: SystemModel,
    id: FxIdModel,
    images: Seq<(StorageConfigurationCloudImage, QcowOptions)>,
    request: StorageResizeRequest,
    j: int,
)
    requires
        0 <= j < images.len(),
        images[j].0.id@ == request.filepath.id@,
    ensures
        resize_images(sys, id, images, request).contains(
            resize_task(overlay_path(sys, id, images[j].0), request),
        ),
    decreases images.len(),
{
    let t = resize_task(overlay_path(sys, id, images[j].0), request);
    let front = resize_images(sys, id, images.drop_last(), request);
    let all = resize_images(sys, id, images, request);
    if j == images.len() - 1 {
        assert(all[front.len() as int] == t);
    } else {
        lemma_resizes_image(sys, id, images.drop_last(), request, j);
        let k = choose|k: int| 0 <= k < front.len() && front[k] == t;
        assert(all[k] == t);
    }
}

/// Whether some disk, device, ISO or image of a storage has an identifier.
pub open spec fn is_named(storage: StorageModel, id: Seq<char>) -> bool {
    match storage {
        StorageModel::Qcow2(files) => exists|j: int|
            0 <= j < files.len() && (#[trigger] files[j]).0.id@ == id,
        StorageModel::HostBlock(devices) => exists|j: int|
            0 <= j < devices.len() && (#[trigger] devices[j]).id@ == id,
        StorageModel::Iso(isos) => exists|j: int|
            0 <= j < isos.len() && (#[trigger] isos[j]).id@ == id,
        StorageModel::CloudImage(images) => exists|j: int|
            0 <= j < images.len() && (#[trigger] images[j]).0.id@ == id,
    }
}

/// A resize request whose identifier no storage has is answered with the path
/// that was not found, and with nothing else.
pub proof fn law_unknown_storage_is_not_found(
    sys: SystemModel,
    id: FxIdModel,
    storage: Seq<StorageModel>,
    request: StorageResizeRequest,
)
    requires
        forall|i: int|
            0 <= i < storage.len() ==> !is_named(#[trigger] storage[i], request.filepath.id@),
    ensures
        request_tasks(sys, id, storage, request) == seq![
            TaskModel::Refuse {
                error: QemuStorageCreateError::FileNotFound(request.filepath.path),
            },
        ],
{
    let groups = Seq::new(storage.len(), |i: int| resize_group(sys, id, storage[i], request));
    let found = found_tasks(sys, id, storage, request);
    if found.len() > 0 {
        let t = found[0];
        assert(found.contains(t));
        lemma_concat_from(groups, t);
        let i = choose|i: int| 0 <= i < groups.len() && (#[trigger] groups[i]).contains(t);
        match storage[i] {
            StorageModel::Qcow2(files) => lemma_resize_files(sys, id, files, request, t),
            StorageModel::CloudImage(images) => lemma_resize_images(sys, id, images, request, t),
            _ => {},
        }
        assert(is_named(storage[i], request.filepath.id@));
    }
}

/// Creating storage takes one task for each disk, device, ISO and image, in
/// order: a disk is made in its own file with its own format and size, an
/// overlay rests on its image unless another is given, an ISO is copied, and a
/// device is only looked at.
pub proof fn law_created_storage(sys: SystemModel, id: FxIdModel, storage: StorageModel, i: int)
    requires
        match storage {
            StorageModel::Qcow2(files) => 0 <= i < files.len(),
            StorageModel::HostBlock(devices) => 0 <= i < devices.len(),
            StorageModel::Iso(isos) => 0 <= i < isos.len(),
            StorageModel::CloudImage(images) => 0 <= i < images.len(),
        },
    ensures
        ({
            let tasks = create_group(sys, id, storage);
            let dir = path_join(sys.vm_data_root_path, fx_id_text(id));
            &&& tasks.len() == (match storage {
                StorageModel::Qcow2(files) => files.len(),
                StorageModel::HostBlock(devices) => devices.len(),
                StorageModel::Iso(isos) => isos.len(),
                StorageModel::CloudImage(images) => images.len(),
            })
            &&& match storage {
                StorageModel::Qcow2(files) => tasks[i] == (TaskModel::CreateDisk {
                    dir,
                    filename: disk_path(sys, id, files[i].0, files[i].1),
                    args: img_create_words(
                        match files[i].1 {
                            QemuQcowFormat::Qcow2 => "qcow2"@,
                            QemuQcowFormat::Raw => "raw"@,
                        },
                        disk_path(sys, id, files[i].0, files[i].1),
                        Some(files[i].0.size),
                        files[i].2@,
                    ),
                }),
                StorageModel::HostBlock(devices) => tasks[i] == (TaskModel::HostBlock {
                    path: devices[i].path@,
                }),
                StorageModel::Iso(isos) => tasks[i] == (TaskModel::CopyIso {
                    dir,
                    source: isos[i].path@,
                    destination: iso_path(sys, id, isos[i]),
                }),
                StorageModel::CloudImage(images) => {
                    let image = images[i].0;
                    let given = images[i].1@;
                    let format = match image.os_type {
                        OsImageFileType::Qcow2 => "qcow2"@,
                        _ => "raw"@,
                    };
                    if image.os_type is Iso {
                        tasks[i] matches TaskModel::Refuse { error } && error
                            is UnsupportedStorage
                    } else {
                        tasks[i] == (TaskModel::CreateOverlay {
                            source: image.path@,
                            dir,
                            filename: overlay_path(sys, id, image),
                            args: img_create_words(
                                "qcow2"@,
                                overlay_path(sys, id, image),
                                None,
                                QcowModel {
                                    backing_file: Some(
                                        if given.backing_file is Some {
                                            given.backing_file->0
                                        } else {
                                            image.path@
                                        },
                                    ),
                                    backing_format: Some(
                                        if given.backing_format is Some {
                                            given.backing_format->0
                                        } else {
                                            format
                                        },
                                    ),
                                    ..given
                                },
                            ),
                        })
                    }
                },
            }
        }),
{
}

/// Checking storage takes one task for each disk, device, ISO and image, in
/// order, and looks at the files that creating it makes; of an ISO it looks at
/// the source.
pub proof fn law_checked_storage(sys: SystemModel, id: FxIdModel, storage: StorageModel, i: int)
    requires
        match storage {
            StorageModel::Qcow2(files) => 0 <= i < files.len(),
            StorageModel::HostBlock(devices) => 0 <= i < devices.len(),
            StorageModel::Iso(isos) => 0 <= i < isos.len(),
            StorageModel::CloudImage(images) => 0 <= i < images.len(),
        },
    ensures
        info_group(sys, id, storage).len() == create_group(sys, id, storage).len(),
        match create_group(sys, id, storage)[i] {
            TaskModel::CreateDisk { filename, .. } => info_group(sys, id, storage)[i] == (
            TaskModel::InspectDisk { filename }),
            TaskModel::HostBlock { path } => info_group(sys, id, storage)[i] == (
            TaskModel::HostBlock { path }),
            TaskModel::CopyIso { source, .. } => info_group(sys, id, storage)[i] == (
            TaskModel::FindIso { path: source }),
            TaskModel::CreateOverlay { source, filename, .. } => info_group(sys, id, storage)[i]
                == (TaskModel::InspectOverlay { overlay: filename, source, writable: true }),
            _ => info_group(sys, id, storage)[i] matches TaskModel::InspectOverlay {
                writable,
                ..
            } && !writable,
        },
{
}

/// The tasks for joined storage are those for the one followed by those for the
/// other, and the tasks for one piece are its own; so it is with requests.
pub proof fn law_storage_tasks_add_up(
    sys: SystemModel,
    id: FxIdModel,
    a: Seq<StorageModel>,
    b: Seq<StorageModel>,
    one: StorageModel,
    p: Seq<StorageResizeRequest>,
    q: Seq<StorageResizeRequest>,
    request: StorageResizeRequest,
)
    ensures
        create_tasks(sys, id, a + b) == create_tasks(sys, id, a) + create_tasks(sys, id, b),
        create_tasks(sys, id, seq![one]) == create_group(sys, id, one),
        info_tasks(sys, id, a + b) == info_tasks(sys, id, a) + info_tasks(sys, id, b),
        info_tasks(sys, id, seq![one]) == info_group(sys, id, one),
        resize_tasks(sys, id, a, p + q) == resize_tasks(sys, id, a, p) + resize_tasks(sys, id, a, q),
        resize_tasks(sys, id, a, seq![request]) == request_tasks(sys, id, a, request),
{
    let created = |s: Seq<StorageModel>| Seq::new(s.len(), |i: int| create_group(sys, id, s[i]));
    let checked = |s: Seq<StorageModel>| Seq::new(s.len(), |i: int| info_group(sys, id, s[i]));
    let resized = |r: Seq<StorageResizeRequest>|
        Seq::new(r.len(), |i: int| request_tasks(sys, id, a, r[i]));
    assert(created(a + b) =~= created(a) + created(b));
    assert(checked(a + b) =~= checked(a) + checked(b));
    assert(resized(p + q) =~= resized(p) + resized(q));
    lemma_concat_add(created(a), created(b));
    lemma_concat_add(checked(a), checked(b));
    lemma_concat_add(resized(p), resized(q));
    lemma_concat_one(created(seq![one]));
    lemma_concat_one(checked(seq![one]));
    lemma_concat_one(resized(seq![request]));
}

proof fn lemma_concat_one(groups: Seq<Seq<TaskModel>>)
    requires
        groups.len() == 1,
    ensures
        concat(groups) == groups[0],
{
    assert(groups.drop_last() =~= Seq::<Seq<TaskModel>>::empty());
    assert(concat(groups.drop_last()) =~= Seq::<TaskModel>::empty());
    assert(concat(groups) =~= groups[0]);
}

/// The steps of a task, each with the action it asks for: a disk is made in an
/// existing directory, and only where it is not there; an overlay only of an
/// image that is there; and an ISO is copied into an existing directory.
pub proof fn law_storage_steps(task: StorageTask, done: bool)
    ensures
        ({
            let first = first_ask(task);
            let second = task_next(task, first, Ok(done));
            let info = |file: Seq<char>| seq![
                "info"@,
                "--force-share"@,
                "--output"@,
                "json"@,
                file,
            ];
            match task@ {
                TaskModel::CreateDisk { dir, filename, args } => {
                    &&& asked_action(task@, first) == ActionModel::CreateDir(dir)
                    &&& second matches TaskStep::Ask(look) && {
                        &&& asked_action(task@, look) == ActionModel::Exists(filename)
                        &&& task_next(task, look, Ok(true)) matches TaskStep::Ask(next)
                            && asked_action(task@, next) == ActionModel::Inspect(info(filename))
                        &&& task_next(task, look, Ok(false)) matches TaskStep::Ask(next)
                            && asked_action(task@, next) == ActionModel::RunImg(args)
                    }
                },
                TaskModel::CreateOverlay { source, dir, filename, args } => {
                    &&& asked_action(task@, first) == ActionModel::Exists(source)
                    &&& task_next(task, first, Ok(true)) matches TaskStep::Ask(make) && {
                        &&& asked_action(task@, make) == ActionModel::CreateDir(dir)
                        &&& task_next(task, make, Ok(done)) matches TaskStep::Ask(look) && {
                            &&& asked_action(task@, look) == ActionModel::Exists(filename)
                            &&& task_next(task, look, Ok(true)) matches TaskStep::Ask(next)
                                && asked_action(task@, next) == ActionModel::Inspect(info(filename))
                            &&& task_next(task, look, Ok(false)) matches TaskStep::Ask(next)
                                && asked_action(task@, next) == ActionModel::RunImg(args)
                        }
                    }
                },
                TaskModel::CopyIso { dir, source, destination } => {
                    &&& asked_action(task@, first) == ActionModel::CreateDir(dir)
                    &&& second matches TaskStep::Ask(next) && asked_action(task@, next)
                        == ActionModel::Copy(source, destination)
                },
                TaskModel::HostBlock { path } => asked_action(task@, first)
                    == ActionModel::StatBlock(path),
                TaskModel::InspectDisk { filename } => asked_action(task@, first)
                    == ActionModel::Inspect(info(filename)),
                TaskModel::InspectOverlay { overlay, source, writable } => {
                    &&& asked_action(task@, first) == ActionModel::Exists(overlay)
                    &&& writable ==> (task_next(task, first, Ok(true)) matches TaskStep::Ask(next)
                        && asked_action(task@, next) == ActionModel::Inspect(info(overlay)))
                    &&& writable ==> (task_next(task, first, Ok(false)) matches TaskStep::Ask(next)
                        && asked_action(task@, next) == ActionModel::Inspect(info(source)))
                },
                TaskModel::FindIso { path } => asked_action(task@, first) == ActionModel::Exists(
                    path,
                ),
                TaskModel::Resize { args, .. } => asked_action(task@, first) == ActionModel::RunImg(
                    args,
                ),
                TaskModel::Refuse { .. } => asked_action(task@, first) == ActionModel::Nothing,
            }
        }),
{
}

/// Copying an ISO is without error exactly when its directory can be made and
/// the copy succeeds; a device when it is one; a check of a disk when the image
/// is sound; a check of an overlay when the overlay is sound, or the image where
/// there is no overlay; a search for an ISO when it is there; and a refusal
/// never.
pub proof fn law_storage_outcomes(task: StorageTask, world: World)
    ensures
        ({
            let error = task_error(task, first_ask(task), world);
            let sound = |file: Seq<char>| world(
                ActionModel::Inspect(
                    seq!["info"@, "--force-share"@, "--output"@, "json"@, file],
                ),
            ) == Ok::<bool, StorageFailure>(false);
            match task@ {
                TaskModel::CopyIso { dir, source, destination } => error is None <==> world(
                    ActionModel::CreateDir(dir),
                ) is Ok && world(ActionModel::Copy(source, destination)) is Ok,
                TaskModel::HostBlock { path } => error is None <==> (world(
                    ActionModel::StatBlock(path),
                ) == Ok::<bool, StorageFailure>(true)),
                TaskModel::InspectDisk { filename } => error is None <==> sound(filename),
                TaskModel::InspectOverlay { overlay, source, writable } => error is None <==> (
                writable && match world(ActionModel::Exists(overlay)) {
                    Ok(there) => if there {
                        sound(overlay)
                    } else {
                        sound(source)
                    },
                    Err(_) => false,
                }),
                TaskModel::FindIso { path } => error is None <==> (world(ActionModel::Exists(path))
                    == Ok::<bool, StorageFailure>(true)),
                TaskModel::Refuse { error: refusal } => error == Some(refusal),
                _ => true,
            }
        }),
{
    reveal_with_fuel(task_error, 4);
}

/// The errors of storage say what is wrong: a corrupt image and a missing file
/// are named, a failed run of `qemu-img` is named with its file, and where an
/// action fails its own error is reported.
pub proof fn law_storage_errors(task: StorageTask, ask: StorageAsk, answer: Result<bool, StorageFailure>)
    requires
        asked_action(task@, ask) != ActionModel::Nothing,
        task_next(task, ask, answer) matches TaskStep::Done(Some(_)),
    ensures
        task_next(task, ask, answer) matches TaskStep::Done(Some(error)) && match (
            asked_action(task@, ask),
            answer,
        ) {
            (ActionModel::Inspect(words), Ok(corrupt)) => corrupt && (error
                matches QemuStorageCreateError::CorruptImage(file) && words.last() == file@),
            (ActionModel::RunImg(_), Ok(success)) => !success && (error
                matches QemuStorageCreateError::CommandFailed(command, file) && match task@ {
                TaskModel::Resize { filename, .. } => command@ == "qemu-img resize"@ && file@
                    == filename,
                TaskModel::CreateDisk { filename, .. } => command@ == "qemu-img create"@ && file@
                    == filename,
                TaskModel::CreateOverlay { filename, .. } => command@ == "qemu-img create"@ && file@
                    == filename,
                _ => false,
            }),
            (ActionModel::StatBlock(_), Ok(is_block)) => !is_block && (error
                matches QemuStorageCreateError::UnsupportedStorage(what) && what@
                == "host block storage path is not a block device"@),
            (ActionModel::StatBlock(path), Err(StorageFailure::Io(err))) => if err.kind is NotFound {
                error matches QemuStorageCreateError::FileNotFound(file) && file@ == path
            } else {
                error == QemuStorageCreateError::IO(err)
            },
            (ActionModel::Exists(path), Ok(there)) => match task@ {
                TaskModel::InspectOverlay { writable, .. } => !writable && (error
                    matches QemuStorageCreateError::UnsupportedStorage(what) && what@
                    == "ISO cloud images cannot be used as writable disks"@),
                _ => !there && (error matches QemuStorageCreateError::FileNotFound(file) && file@
                    == path),
            },
            (ActionModel::Exists(path), Err(failure)) => if task is FindIso {
                error matches QemuStorageCreateError::FileNotFound(file) && file@ == path
            } else {
                match failure {
                    StorageFailure::Io(err) => error == QemuStorageCreateError::IO(err),
                    StorageFailure::Command(err) => error == QemuStorageCreateError::CommandRanError(
                        err,
                    ),
                    StorageFailure::Json(message) => error == QemuStorageCreateError::JsonParse(
                        message,
                    ),
                }
            },
            (_, Err(StorageFailure::Io(err))) => error == QemuStorageCreateError::IO(err),
            (_, Err(StorageFailure::Command(err))) => error
                == QemuStorageCreateError::CommandRanError(err),
            (_, Err(StorageFailure::Json(message))) => error == QemuStorageCreateError::JsonParse(
                message,
            ),
            _ => false,
        },
{
}

} // verus!
