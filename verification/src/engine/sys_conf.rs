//! Host filesystem configuration for managed data.
use vstd::prelude::*;

use crate::engine::storage::DirStep;
use crate::engine::storage::DirStepModel;
use crate::engine::storage::create_steps;
use crate::engine::storage::dir_steps;
use crate::io_error::IoError;
use crate::text::copy_strings;
use crate::text::texts;

verus! {

/// Local directories and executable search paths used by providers.
#[derive(Debug)]
pub struct SystemConfiguration {
    /// Candidate emulator executable paths.
    pub emulator_paths: Vec<String>,
    /// Candidate provider binary paths.
    pub binary_paths: Vec<String>,
    /// Runtime state directory.
    pub run_path: String,
    /// Virtual machine runtime directory.
    pub vm_root_path: String,
    /// Virtual machine persistent data directory.
    pub vm_data_root_path: String,
    /// Operating-system image cache directory.
    pub os_cache_root_path: String,
}

/// The model of a system configuration.
#[verifier::ext_equal]
pub struct SystemModel {
    pub emulator_paths: Seq<Seq<char>>,
    pub binary_paths: Seq<Seq<char>>,
    pub run_path: Seq<char>,
    pub vm_root_path: Seq<char>,
    pub vm_data_root_path: Seq<char>,
    pub os_cache_root_path: Seq<char>,
}

impl View for SystemConfiguration {
    type V = SystemModel;

    open spec fn view(&self) -> SystemModel {
        SystemModel {
            emulator_paths: texts(self.emulator_paths@),
            binary_paths: texts(self.binary_paths@),
            run_path: self.run_path@,
            vm_root_path: self.vm_root_path@,
            vm_data_root_path: self.vm_data_root_path@,
            os_cache_root_path: self.os_cache_root_path@,
        }
    }
}

impl Clone for SystemConfiguration {
    fn clone(&self) -> (r: Self)
        ensures
            r@ == self@,
    {
        SystemConfiguration {
            emulator_paths: copy_strings(&self.emulator_paths),
            binary_paths: copy_strings(&self.binary_paths),
            run_path: self.run_path.clone(),
            vm_root_path: self.vm_root_path.clone(),
            vm_data_root_path: self.vm_data_root_path.clone(),
            os_cache_root_path: self.os_cache_root_path.clone(),
        }
    }
}

impl Default for SystemConfiguration {
    /// A configuration without any path.
    fn default() -> (r: Self)
        ensures
            r@ == (SystemModel {
                emulator_paths: seq![],
                binary_paths: seq![],
                run_path: seq![],
                vm_root_path: seq![],
                vm_data_root_path: seq![],
                os_cache_root_path: seq![],
            }),
    {
        SystemConfiguration {
            emulator_paths: Vec::new(),
            binary_paths: Vec::new(),
            run_path: String::new(),
            vm_root_path: String::new(),
            vm_data_root_path: String::new(),
            os_cache_root_path: String::new(),
        }
    }
}

/// The directories that a configuration is set up with, in order.
pub open spec fn setup_dirs(conf: SystemModel) -> Seq<Seq<char>> {
    seq![conf.run_path, conf.vm_root_path, conf.vm_data_root_path, conf.os_cache_root_path]
}

/// The set-up of a configuration: each directory is created as far as that can
/// be done. An error ends nothing and is not reported; it is met again by the
/// operations on storage that need the directory.
#[derive(Debug)]
pub struct SetupRun {
    /// The steps.
    pub steps: Vec<DirStep>,
    /// How many steps were attempted.
    pub attempted: usize,
}

impl SetupRun {
    /// Whether a step is left to attempt.
    pub open spec fn waits(self) -> bool {
        self.attempted < self.steps@.len()
    }

    /// The set-up after the answer to the current step, whatever it is.
    pub open spec fn after(self, answer: Result<bool, IoError>) -> SetupRun {
        if self.waits() {
            SetupRun { attempted: (self.attempted + 1) as usize, ..self }
        } else {
            self
        }
    }

    /// The set-up after a row of answers.
    pub open spec fn after_all(self, answers: Seq<Result<bool, IoError>>) -> SetupRun
        decreases answers.len(),
    {
        if answers.len() == 0 {
            self
        } else {
            self.after_all(answers.drop_last()).after(answers.last())
        }
    }

    /// The result of the set-up, once every step was attempted: success.
    pub open spec fn outcome(self) -> Option<Result<(), IoError>> {
        if self.waits() {
            None
        } else {
            Some(Ok(()))
        }
    }

    /// The step to attempt next.
    pub fn next(&self) -> (r: Option<&DirStep>)
        ensures
            r is Some == self.waits(),
            r is Some ==> *(r->0) == self.steps@[self.attempted as int],
    {
        if self.attempted < self.steps.len() {
            Some(&self.steps[self.attempted])
        } else {
            None
        }
    }

    /// Takes in the answer to the current step.
    pub fn advance(&mut self, answer: Result<bool, IoError>)
        ensures
            *final(self) == old(self).after(answer),
    {
        if self.attempted < self.steps.len() {
            self.attempted = self.attempted + 1;
        }
    }

    /// The result of a set-up that has ended.
    pub fn result(self) -> (r: Option<Result<(), IoError>>)
        ensures
            r == self.outcome(),
    {
        if self.attempted < self.steps.len() {
            None
        } else {
            Some(Ok(()))
        }
    }
}

/// A set-up attempts every step in order whatever comes back, and ends in
/// success exactly when all were attempted.
pub proof fn law_setup_attempts_all(run: SetupRun, answers: Seq<Result<bool, IoError>>)
    requires
        run.attempted == 0,
        answers.len() <= run.steps@.len(),
    ensures
        run.after_all(answers).steps == run.steps,
        run.after_all(answers).attempted == answers.len(),
        run.after_all(answers).outcome() == (if answers.len() < run.steps@.len() {
            None
        } else {
            Some(Ok::<(), IoError>(()))
        }),
    decreases answers.len(),
{
    let all: usize = run.steps.len();
    if answers.len() > 0 {
        law_setup_attempts_all(run, answers.drop_last());
    }
}

impl SystemConfiguration {
    /// A system configuration, and the set-up of its directories. The
    /// configuration holds whatever becomes of the set-up.
    pub fn new(
        run_path: String,
        emulator_paths: Vec<String>,
        vm_root_path: String,
        vm_data_root_path: String,
        os_cache_root_path: String,
    ) -> (r: (Self, SetupRun))
        ensures
            r.0@ == (SystemModel {
                emulator_paths: texts(emulator_paths@),
                binary_paths: seq![],
                run_path: run_path@,
                vm_root_path: vm_root_path@,
                vm_data_root_path: vm_data_root_path@,
                os_cache_root_path: os_cache_root_path@,
            }),
            dir_steps(r.1.steps@) == create_steps(setup_dirs(r.0@)),
            r.1.attempted == 0,
    {
        let mut steps: Vec<DirStep> = Vec::new();
        steps.push(DirStep::Create(run_path.clone()));
        steps.push(DirStep::Create(vm_root_path.clone()));
        steps.push(DirStep::Create(vm_data_root_path.clone()));
        steps.push(DirStep::Create(os_cache_root_path.clone()));
        let conf = SystemConfiguration {
            emulator_paths,
            binary_paths: Vec::new(),
            run_path,
            vm_root_path,
            vm_data_root_path,
            os_cache_root_path,
        };
        proof {
            assert(dir_steps(steps@) =~= create_steps(setup_dirs(conf@)));
            assert(texts(conf.binary_paths@) =~= Seq::<Seq<char>>::empty());
        }
        (conf, SetupRun { steps, attempted: 0 })
    }
}

/// A set-up creates the directories for runtime files, machines, their data and
/// images, in this order.
pub proof fn law_setup_directories(conf: SystemModel)
    ensures
        create_steps(setup_dirs(conf)) == seq![
            DirStepModel::Create(conf.run_path),
            DirStepModel::Create(conf.vm_root_path),
            DirStepModel::Create(conf.vm_data_root_path),
            DirStepModel::Create(conf.os_cache_root_path),
        ],
{
    assert(create_steps(setup_dirs(conf)) =~= seq![
        DirStepModel::Create(conf.run_path),
        DirStepModel::Create(conf.vm_root_path),
        DirStepModel::Create(conf.vm_data_root_path),
        DirStepModel::Create(conf.os_cache_root_path),
    ]);
}

} // verus!
