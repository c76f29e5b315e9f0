//! Storage requests and the simple storage backends.
use vstd::prelude::*;

use crate::engine::machine_conf::StorageConfigurationDisk;
use crate::engine::sys_conf::SystemConfiguration;
use crate::engine::sys_conf::SystemModel;
use crate::io_error::IoError;

verus! {

/// Direction of a storage resize operation.
#[derive(Clone, Copy, Debug, PartialEq, Eq, Structural)]
pub enum StorageResizeRequestDirection {
    /// Reduce storage size.
    Shrink,
    /// Increase storage size.
    Grow,
}

/// Request to resize a configured disk.
#[derive(Debug)]
pub struct StorageResizeRequest {
    /// Disk to resize.
    pub filepath: StorageConfigurationDisk,
    /// Target size, in bytes.
    pub new_size: u64,
    /// Resize direction.
    pub dir: StorageResizeRequestDirection,
}

/// Errors returned by the basic filesystem storage backend.
#[derive(Debug)]
pub enum StorageFilesystemError {
    /// Filesystem operation failed.
    Io(IoError),
    /// A required directory was not present.
    DirectoryNotFound(String),
    /// The operation is not supported by the filesystem backend.
    Unsupported(&'static str),
}

/// One step of preparing directories.
#[derive(Debug)]
pub enum DirStep {
    /// Create a directory and its parents.
    Create(String),
    /// Look whether a path is a directory.
    Check(String),
}

/// The model of a step of preparing directories.
pub enum DirStepModel {
    Create(Seq<char>),
    Check(Seq<char>),
}

impl View for DirStep {
    type V = DirStepModel;

    open spec fn view(&self) -> DirStepModel {
        match self {
            DirStep::Create(path) => DirStepModel::Create(path@),
            DirStep::Check(path) => DirStepModel::Check(path@),
        }
    }
}

/// The models of a row of steps.
pub open spec fn dir_steps(v: Seq<DirStep>) -> Seq<DirStepModel> {
    Seq::new(v.len(), |i: int| v[i]@)
}

/// The error that follows from the answer to a step, if one follows.
///
/// The flag of the answer tells whether a checked path is a directory.
pub open spec fn step_error(step: DirStep, answer: Result<bool, IoError>) -> Option<
    StorageFilesystemError,
> {
    match (step, answer) {
        (DirStep::Create(_), Ok(_)) => None,
        (DirStep::Create(_), Err(err)) => Some(StorageFilesystemError::Io(err)),
        (DirStep::Check(_), Ok(is_dir)) => if is_dir {
            None
        } else {
            Some(
                StorageFilesystemError::Unsupported(
                    "configured storage path exists but is not a directory",
                ),
            )
        },
        (DirStep::Check(path), Err(err)) => if err.kind is NotFound {
            Some(StorageFilesystemError::DirectoryNotFound(path))
        } else {
            Some(StorageFilesystemError::Io(err))
        },
    }
}

/// The result of looking whether a path is a directory, or of creating one.
pub fn ensure_dir(step: &DirStep, answer: Result<bool, IoError>) -> (r: Option<
    StorageFilesystemError,
>)
    ensures
        r == step_error(*step, answer),
{
    match (step, answer) {
        (DirStep::Create(_), Ok(_)) => None,
        (DirStep::Create(_), Err(err)) => Some(StorageFilesystemError::Io(err)),
        (DirStep::Check(_), Ok(is_dir)) => if is_dir {
            None
        } else {
            Some(
                StorageFilesystemError::Unsupported(
                    "configured storage path exists but is not a directory",
                ),
            )
        },
        (DirStep::Check(path), Err(err)) => if err.is_not_found() {
            Some(StorageFilesystemError::DirectoryNotFound(path.clone()))
        } else {
            Some(StorageFilesystemError::Io(err))
        },
    }
}

/// The preparation of directories: steps taken in order, up to the first error.
#[derive(Debug)]
pub struct DirRun {
    /// The steps.
    pub steps: Vec<DirStep>,
    /// How many steps were taken without an error.
    pub taken: usize,
    /// The error that ended the preparation.
    pub failure: Option<StorageFilesystemError>,
}

impl DirRun {
    /// Whether a step is left to take.
    pub open spec fn waits(self) -> bool {
        self.failure is None && self.taken < self.steps@.len()
    }

    /// The preparation after the answer to the current step.
    pub open spec fn after(self, answer: Result<bool, IoError>) -> DirRun {
        if self.waits() {
            match step_error(self.steps@[self.taken as int], answer) {
                None => DirRun { taken: (self.taken + 1) as usize, ..self },
                Some(err) => DirRun { failure: Some(err), ..self },
            }
        } else {
            self
        }
    }

    /// Whether the preparation is at its beginning, with the given steps.
    pub open spec fn begins(self, steps: Seq<DirStepModel>) -> bool {
        dir_steps(self.steps@) == steps && self.taken == 0 && self.failure is None
    }

    /// The result of the preparation, once it has ended.
    pub open spec fn outcome(self) -> Option<Result<(), StorageFilesystemError>> {
        match self.failure {
            Some(err) => Some(Err(err)),
            None => if self.taken < self.steps@.len() {
                None
            } else {
                Some(Ok(()))
            },
        }
    }

    /// The preparation after a row of answers.
    pub open spec fn after_all(self, answers: Seq<Result<bool, IoError>>) -> DirRun
        decreases answers.len(),
    {
        if answers.len() == 0 {
            self
        } else {
            self.after_all(answers.drop_last()).after(answers.last())
        }
    }

    /// The step to take next.
    pub fn next(&self) -> (r: Option<&DirStep>)
        ensures
            r is Some == self.waits(),
            r is Some ==> *(r->0) == self.steps@[self.taken as int],
    {
        if self.failure.is_none() && self.taken < self.steps.len() {
            Some(&self.steps[self.taken])
        } else {
            None
        }
    }

    /// Takes in the answer to the current step.
    pub fn advance(&mut self, answer: Result<bool, IoError>)
        ensures
            *final(self) == old(self).after(answer),
    {
        if self.failure.is_none() && self.taken < self.steps.len() {
            match ensure_dir(&self.steps[self.taken], answer) {
                None => {
                    self.taken = self.taken + 1;
                },
                Some(err) => {
                    self.failure = Some(err);
                },
            }
        }
    }

    /// The result of a preparation that has ended.
    pub fn result(self) -> (r: Option<Result<(), StorageFilesystemError>>)
        ensures
            r == self.outcome(),
    {
        match self.failure {
            Some(err) => Some(Err(err)),
            None => if self.taken < self.steps.len() {
                None
            } else {
                Some(Ok(()))
            },
        }
    }
}

/// A preparation that begins with the given steps.
pub fn dir_run(steps: Vec<DirStep>) -> (r: DirRun)
    ensures
        r == (DirRun { steps, taken: 0, failure: None }),
{
    DirRun { steps, taken: 0, failure: None }
}

/// A preparation succeeds exactly when no step meets an error, and otherwise
/// reports the error of the first step that meets one.
pub proof fn law_dir_run_reports_first_error(run: DirRun, answers: Seq<Result<bool, IoError>>)
    requires
        run.taken == 0,
        run.failure is None,
        answers.len() <= run.steps@.len(),
    ensures
        run.after_all(answers).steps == run.steps,
        run.after_all(answers).failure is None <==> forall|i: int|
            0 <= i < answers.len() ==> step_error(run.steps@[i], #[trigger] answers[i]) is None,
        run.after_all(answers).failure is None ==> run.after_all(answers).taken == answers.len(),
        run.after_all(answers).failure is Some ==> {
            let k = run.after_all(answers).taken as int;
            &&& 0 <= k < answers.len()
            &&& run.after_all(answers).failure == step_error(run.steps@[k], answers[k])
            &&& forall|i: int| 0 <= i < k ==> step_error(run.steps@[i], #[trigger] answers[i]) is None
        },
    decreases answers.len(),
{
    let all: usize = run.steps.len();
    if answers.len() > 0 {
        let init = answers.drop_last();
        let n = init.len() as int;
        law_dir_run_reports_first_error(run, init);
        assert(forall|i: int| 0 <= i < n ==> init[i] == answers[i]);
        let before = run.after_all(init);
        if before.failure is None {
            assert forall|i: int| 0 <= i < n implies step_error(run.steps@[i], #[trigger] answers[i])
                is None by {
                assert(init[i] == answers[i]);
            }
            assert(answers[n] == answers.last());
        } else {
            let k = before.taken as int;
            assert(answers[k] == init[k]);
            assert(step_error(run.steps@[k], answers[k]) is Some);
            assert forall|i: int| 0 <= i < k implies step_error(run.steps@[i], #[trigger] answers[i])
                is None by {
                assert(init[i] == answers[i]);
            }
        }
    }
}

/// The directories that storage rests on.
pub open spec fn system_dirs(conf: SystemModel) -> Seq<Seq<char>> {
    seq![conf.os_cache_root_path, conf.vm_root_path, conf.vm_data_root_path, conf.run_path]
}

/// The steps that check directories.
pub open spec fn check_steps(dirs: Seq<Seq<char>>) -> Seq<DirStepModel> {
    Seq::new(dirs.len(), |i: int| DirStepModel::Check(dirs[i]))
}

/// The steps that create directories.
pub open spec fn create_steps(dirs: Seq<Seq<char>>) -> Seq<DirStepModel> {
    Seq::new(dirs.len(), |i: int| DirStepModel::Create(dirs[i]))
}

/// The steps that create the directories that storage rests on, and then check
/// them.
pub open spec fn creation(conf: SystemModel) -> Seq<DirStepModel> {
    create_steps(system_dirs(conf)) + check_steps(system_dirs(conf))
}

/// The check of all directories that storage rests on.
pub fn ensure_system_dirs(sys_conf: &SystemConfiguration) -> (r: DirRun)
    ensures
        r.begins(check_steps(system_dirs(sys_conf@))),
{
    let mut steps: Vec<DirStep> = Vec::new();
    steps.push(DirStep::Check(sys_conf.os_cache_root_path.clone()));
    steps.push(DirStep::Check(sys_conf.vm_root_path.clone()));
    steps.push(DirStep::Check(sys_conf.vm_data_root_path.clone()));
    steps.push(DirStep::Check(sys_conf.run_path.clone()));
    proof {
        assert(dir_steps(steps@) =~= check_steps(system_dirs(sys_conf@)));
    }
    dir_run(steps)
}

/// No-op storage backend for effects that do not need storage.
#[derive(Clone, Copy, Debug)]
pub struct Storageless {}

/// Filesystem-backed storage backend that creates and validates working
/// directories.
#[derive(Debug)]
pub struct StorageFilesystem {
    /// Configuration used by calls that do not receive one directly.
    pub system_configuration: Option<SystemConfiguration>,
}

impl View for StorageFilesystem {
    type V = Option<SystemModel>;

    /// The configuration that the backend is bound to.
    open spec fn view(&self) -> Option<SystemModel> {
        match self.system_configuration {
            Some(conf) => Some(conf@),
            None => None,
        }
    }
}

/// The steps that check the configuration that a backend is bound to; without
/// one there is nothing to check.
pub open spec fn validation(bound: Option<SystemModel>) -> Result<
    Seq<DirStepModel>,
    StorageFilesystemError,
> {
    match bound {
        Some(conf) => Ok(check_steps(system_dirs(conf))),
        None => Err(
            StorageFilesystemError::Unsupported(
                "StorageFilesystem has no bound SystemConfiguration for this lifecycle method",
            ),
        ),
    }
}

/// Whether `r` is the beginning of a check of the configuration that a backend
/// is bound to, or the error where there is none.
pub open spec fn begins_validation(
    bound: Option<SystemModel>,
    r: Result<DirRun, StorageFilesystemError>,
) -> bool {
    match validation(bound) {
        Ok(steps) => r is Ok && r->Ok_0.begins(steps),
        Err(err) => r == Err::<DirRun, StorageFilesystemError>(err),
    }
}

/// The configuration that a backend is bound to once the creation of storage for
/// `conf` had the given result.
pub open spec fn bound_after(
    bound: Option<SystemModel>,
    conf: SystemModel,
    result: Result<(), StorageFilesystemError>,
) -> Option<SystemModel> {
    if result is Ok {
        Some(conf)
    } else {
        bound
    }
}

/// Storage whose creation succeeded opens as long as its directories are there,
/// and stays bound to its configuration; storage that was never bound and whose
/// creation failed does not open.
///
/// `create` is the creation for `conf` at its beginning, and `opened` what
/// opening the storage begins with after it; `made` and `looks` are the answers
/// to the steps of the two.
pub proof fn law_created_storage_opens(
    bound: Option<SystemModel>,
    conf: SystemModel,
    create: DirRun,
    made: Seq<Result<bool, IoError>>,
    opened: Result<DirRun, StorageFilesystemError>,
    looks: Seq<Result<bool, IoError>>,
)
    requires
        create.begins(creation(conf)),
        create.after_all(made).outcome() is Some,
        begins_validation(
            bound_after(bound, conf, create.after_all(made).outcome()->0),
            opened,
        ),
        looks.len() == system_dirs(conf).len(),
        forall|i: int| 0 <= i < looks.len() ==> #[trigger] looks[i] == Ok::<bool, IoError>(true),
    ensures
        ({
            let result = create.after_all(made).outcome()->0;
            let after = bound_after(bound, conf, result);
            &&& result is Ok ==> {
                &&& after == Some(conf)
                &&& opened is Ok
                &&& opened->Ok_0.after_all(looks).outcome() == Some(
                    Ok::<(), StorageFilesystemError>(()),
                )
            }
            &&& result is Err && bound is None ==> {
                &&& after is None
                &&& opened matches Err(StorageFilesystemError::Unsupported(_))
            }
        }),
{
    if create.after_all(made).outcome()->0 is Ok {
        let open = opened->Ok_0;
        assert(open.steps@.len() == dir_steps(open.steps@).len());
        law_dir_run_reports_first_error(open, looks);
        assert forall|i: int| 0 <= i < looks.len() implies step_error(
            open.steps@[i],
            #[trigger] looks[i],
        ) is None by {
            assert(dir_steps(open.steps@)[i] == check_steps(system_dirs(conf))[i]);
        }
    }
}

/// Storage does not open where one of its directories is not there, or is no
/// directory.
pub proof fn law_missing_directory_stops_opening(
    conf: SystemModel,
    open: DirRun,
    looks: Seq<Result<bool, IoError>>,
    at: int,
)
    requires
        open.begins(check_steps(system_dirs(conf))),
        looks.len() == system_dirs(conf).len(),
        0 <= at < looks.len(),
        looks[at] != Ok::<bool, IoError>(true),
    ensures
        open.after_all(looks).outcome() matches Some(Err(_)),
{
    assert(open.steps@.len() == dir_steps(open.steps@).len());
    assert(dir_steps(open.steps@)[at] == check_steps(system_dirs(conf))[at]);
    law_dir_run_reports_first_error(open, looks);
    assert(step_error(open.steps@[at], looks[at]) is Some);
}

impl Default for StorageFilesystem {
    /// A backend that is bound to no configuration.
    fn default() -> (r: Self)
        ensures
            r@ is None,
    {
        StorageFilesystem { system_configuration: None }
    }
}

impl Clone for StorageFilesystem {
    fn clone(&self) -> (r: Self)
        ensures
            r@ == self@,
    {
        match &self.system_configuration {
            Some(conf) => StorageFilesystem { system_configuration: Some(conf.clone()) },
            None => StorageFilesystem { system_configuration: None },
        }
    }
}

impl StorageFilesystem {
    /// Creates a filesystem storage backend bound to a system configuration.
    pub fn new(system_configuration: SystemConfiguration) -> (r: Self)
        ensures
            r.system_configuration == Some(system_configuration),
    {
        StorageFilesystem { system_configuration: Some(system_configuration) }
    }

    /// The check of the directories of the bound configuration.
    pub fn validate_bound_configuration(&self) -> (r: Result<DirRun, StorageFilesystemError>)
        ensures
            begins_validation(self@, r),
    {
        match &self.system_configuration {
            Some(conf) => Ok(ensure_system_dirs(conf)),
            None => Err(
                StorageFilesystemError::Unsupported(
                    "StorageFilesystem has no bound SystemConfiguration for this lifecycle method",
                ),
            ),
        }
    }

    /// Begins to tell of storage: the directories of the bound configuration have to
    /// be there.
    pub fn sys_storage_info(&self) -> (r: Result<DirRun, StorageFilesystemError>)
        ensures
            begins_validation(self@, r),
    {
        self.validate_bound_configuration()
    }

    /// Begins to check storage: the directories of the bound configuration have to
    /// be there.
    pub fn sys_storage_check(&self) -> (r: Result<DirRun, StorageFilesystemError>)
        ensures
            begins_validation(self@, r),
    {
        self.validate_bound_configuration()
    }

    /// Begins to open storage: the directories of the bound configuration have to
    /// be there.
    pub fn sys_storage_open(&self) -> (r: Result<DirRun, StorageFilesystemError>)
        ensures
            begins_validation(self@, r),
    {
        self.validate_bound_configuration()
    }

    /// Begins to close storage: the directories of the bound configuration have to
    /// be there.
    pub fn sys_storage_close(&self) -> (r: Result<DirRun, StorageFilesystemError>)
        ensures
            begins_validation(self@, r),
    {
        self.validate_bound_configuration()
    }

    /// Begins to create the directories of a configuration and to check them.
    pub fn sys_storage_create(sys_conf: &SystemConfiguration) -> (r: DirRun)
        ensures
            r.begins(creation(sys_conf@)),
    {
        let mut steps: Vec<DirStep> = Vec::new();
        steps.push(DirStep::Create(sys_conf.os_cache_root_path.clone()));
        steps.push(DirStep::Create(sys_conf.vm_root_path.clone()));
        steps.push(DirStep::Create(sys_conf.vm_data_root_path.clone()));
        steps.push(DirStep::Create(sys_conf.run_path.clone()));
        steps.push(DirStep::Check(sys_conf.os_cache_root_path.clone()));
        steps.push(DirStep::Check(sys_conf.vm_root_path.clone()));
        steps.push(DirStep::Check(sys_conf.vm_data_root_path.clone()));
        steps.push(DirStep::Check(sys_conf.run_path.clone()));
        proof {
            assert(dir_steps(steps@) =~= creation(sys_conf@));
        }
        dir_run(steps)
    }

    /// Ends the creation of storage: only where it succeeded is the backend
    /// bound to the configuration.
    pub fn sys_storage_created(
        &mut self,
        sys_conf: &SystemConfiguration,
        result: Result<(), StorageFilesystemError>,
    ) -> (r: Result<(), StorageFilesystemError>)
        ensures
            r == result,
            final(self)@ == bound_after(old(self)@, sys_conf@, result),
            result is Err ==> *final(self) == *old(self),
    {
        if result.is_ok() {
            self.system_configuration = Some(sys_conf.clone());
        }
        result
    }

    /// This backend resizes nothing: any request is refused.
    pub fn sys_storage_resize(&self, resize_requests: &Vec<StorageResizeRequest>) -> (r: Result<
        (),
        StorageFilesystemError,
    >)
        ensures
            resize_requests@.len() == 0 ==> r is Ok,
            resize_requests@.len() > 0 ==> r == Err::<(), StorageFilesystemError>(
                StorageFilesystemError::Unsupported("StorageFilesystem does not resize provider disks"),
            ),
    {
        if resize_requests.len() > 0 {
            return Err(
                StorageFilesystemError::Unsupported("StorageFilesystem does not resize provider disks"),
            );
        }
        Ok(())
    }
}

/// A directory that can be created, or is there, meets no error; one that is not
/// there is reported by its path, a file in its place as unsupported, and any
/// other error of the system as it is.
pub proof fn law_directory_steps(path: String, done: bool, err: IoError)
    ensures
        step_error(DirStep::Create(path), Ok(done)) is None,
        step_error(DirStep::Create(path), Err(err)) == Some(StorageFilesystemError::Io(err)),
        step_error(DirStep::Check(path), Ok(true)) is None,
        step_error(DirStep::Check(path), Ok(false)) matches Some(
            StorageFilesystemError::Unsupported(what),
        ) && what@ == "configured storage path exists but is not a directory"@,
        err.kind is NotFound ==> step_error(DirStep::Check(path), Err(err)) == Some(
            StorageFilesystemError::DirectoryNotFound(path),
        ),
        !(err.kind is NotFound) ==> step_error(DirStep::Check(path), Err(err)) == Some(
            StorageFilesystemError::Io(err),
        ),
{
}

/// Storage rests on the directories for images, machines, their data and their
/// runtime files: all four are created before the first is checked, and all four
/// are checked where storage is opened.
pub proof fn law_storage_directories(conf: SystemModel)
    ensures
        creation(conf) == seq![
            DirStepModel::Create(conf.os_cache_root_path),
            DirStepModel::Create(conf.vm_root_path),
            DirStepModel::Create(conf.vm_data_root_path),
            DirStepModel::Create(conf.run_path),
            DirStepModel::Check(conf.os_cache_root_path),
            DirStepModel::Check(conf.vm_root_path),
            DirStepModel::Check(conf.vm_data_root_path),
            DirStepModel::Check(conf.run_path),
        ],
        validation(Some(conf)) == Ok::<_, StorageFilesystemError>(
            seq![
                DirStepModel::Check(conf.os_cache_root_path),
                DirStepModel::Check(conf.vm_root_path),
                DirStepModel::Check(conf.vm_data_root_path),
                DirStepModel::Check(conf.run_path),
            ],
        ),
        validation(None) matches Err(StorageFilesystemError::Unsupported(what)) && what@
            == "StorageFilesystem has no bound SystemConfiguration for this lifecycle method"@,
{
    assert(creation(conf) =~= seq![
        DirStepModel::Create(conf.os_cache_root_path),
        DirStepModel::Create(conf.vm_root_path),
        DirStepModel::Create(conf.vm_data_root_path),
        DirStepModel::Create(conf.run_path),
        DirStepModel::Check(conf.os_cache_root_path),
        DirStepModel::Check(conf.vm_root_path),
        DirStepModel::Check(conf.vm_data_root_path),
        DirStepModel::Check(conf.run_path),
    ]);
    assert(check_steps(system_dirs(conf)) =~= seq![
        DirStepModel::Check(conf.os_cache_root_path),
        DirStepModel::Check(conf.vm_root_path),
        DirStepModel::Check(conf.vm_data_root_path),
        DirStepModel::Check(conf.run_path),
    ]);
}

/// A preparation without a failure has succeeded once all its steps are taken,
/// goes on before that, and has failed with its failure where it has one.
pub proof fn law_dir_run_outcomes(run: DirRun)
    ensures
        run.failure is Some ==> run.outcome() == Some(
            Err::<(), StorageFilesystemError>(run.failure->0),
        ),
        run.failure is None && run.taken < run.steps@.len() ==> run.outcome() is None,
        run.failure is None && run.taken >= run.steps@.len() ==> run.outcome() == Some(
            Ok::<(), StorageFilesystemError>(()),
        ),
{
}

} // verus!
