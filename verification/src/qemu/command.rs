//! The QEMU command line of a virtual machine, for each architecture.
use vstd::prelude::*;

use crate::qemu::options::command_reading;
use crate::qemu::options::emulator_of;
use crate::qemu::options::read_command;
use crate::qemu::utils::shell_line;
use crate::qemu::utils::to_shell_line;
use crate::text::copy_strings;
use crate::text::texts;

verus! {

/// Supported hardware architectures, each with the words of its command line.
#[derive(Debug, PartialEq, Eq, Hash)]
pub enum QemuSupportedArch {
    X86_64(Vec<String>),
    Aarch64(Vec<String>),
}

/// The model of a command line.
#[verifier::ext_equal]
pub struct QemuCommandModel {
    pub x86: bool,
    pub words: Seq<Seq<char>>,
}

impl View for QemuSupportedArch {
    type V = QemuCommandModel;

    open spec fn view(&self) -> QemuCommandModel {
        match self {
            QemuSupportedArch::X86_64(words) => QemuCommandModel { x86: true, words: texts(words@) },
            QemuSupportedArch::Aarch64(words) => QemuCommandModel {
                x86: false,
                words: texts(words@),
            },
        }
    }
}

impl Clone for QemuSupportedArch {
    fn clone(&self) -> (r: Self)
        ensures
            r@ == self@,
    {
        match self {
            QemuSupportedArch::X86_64(words) => QemuSupportedArch::X86_64(copy_strings(words)),
            QemuSupportedArch::Aarch64(words) => QemuSupportedArch::Aarch64(copy_strings(words)),
        }
    }
}

impl QemuSupportedArch {
    /// The words of the command line.
    pub fn words(&self) -> (r: &Vec<String>)
        ensures
            texts(r@) == self@.words,
    {
        match self {
            QemuSupportedArch::X86_64(words) => words,
            QemuSupportedArch::Aarch64(words) => words,
        }
    }

    /// The program to run: the first word.
    pub fn command(&self) -> (r: String)
        ensures
            r@ == (if self@.words.len() > 0 {
                self@.words[0]
            } else {
                seq![]
            }),
    {
        let words = self.words();
        proof {
            assert(texts(words@).len() == words@.len());
        }
        if words.len() > 0 {
            proof {
                assert(texts(words@)[0] == words@[0]@);
            }
            words[0].clone()
        } else {
            String::new()
        }
    }

    /// The words behind the program.
    pub fn to_args(&self) -> (r: Vec<String>)
        ensures
            texts(r@) == (if self@.words.len() > 0 {
                self@.words.drop_first()
            } else {
                seq![]
            }),
    {
        let words = self.words();
        let mut r: Vec<String> = Vec::new();
        let mut i: usize = 1;
        proof {
            assert(texts(words@).len() == words@.len());
            assert(texts(r@) =~= seq![]);
        }
        while i < words.len()
            invariant
                1 <= i,
                r@.len() == if words@.len() == 0 {
                    0
                } else {
                    i - 1
                },
                words@.len() > 0 ==> i <= words@.len(),
                forall|j: int| 0 <= j < r@.len() ==> #[trigger] r@[j]@ == words@[j + 1]@,
            decreases words.len() - i,
        {
            r.push(words[i].clone());
            i += 1;
        }
        proof {
            if words@.len() > 0 {
                assert(texts(r@) =~= texts(words@).drop_first());
            } else {
                assert(texts(r@) =~= seq![]);
            }
        }
        r
    }

    /// All words of the command line.
    pub fn to_command(&self) -> (r: Vec<String>)
        ensures
            texts(r@) == self@.words,
    {
        copy_strings(self.words())
    }

    /// The command line as one text for a shell.
    pub fn to_single_command(&self) -> (r: String)
        ensures
            r@ == shell_line(self@.words),
    {
        to_shell_line(self.words())
    }

    /// The command that a command line stands for.
    pub fn parse(s: &str) -> (r: Result<Self, String>)
        ensures
            match r {
                Ok(qemu) => command_reading(s@) == Ok::<(bool, Seq<Seq<char>>), Seq<char>>(
                    (qemu@.x86, qemu@.words),
                ),
                Err(message) => command_reading(s@) == Err::<(bool, Seq<Seq<char>>), Seq<char>>(
                    message@,
                ),
            },
            r matches Ok(qemu) ==> emulator_of(s@) == Some(qemu@.x86) && qemu@.words.len() > 0,
    {
        match read_command(s) {
            Ok((x86, words)) => if x86 {
                Ok(QemuSupportedArch::X86_64(words))
            } else {
                Ok(QemuSupportedArch::Aarch64(words))
            },
            Err(message) => Err(message),
        }
    }
}

impl std::str::FromStr for QemuSupportedArch {
    type Err = String;

    fn from_str(s: &str) -> (r: Result<Self, String>)
        ensures
            match r {
                Ok(qemu) => command_reading(s@) == Ok::<(bool, Seq<Seq<char>>), Seq<char>>(
                    (qemu@.x86, qemu@.words),
                ),
                Err(message) => command_reading(s@) == Err::<(bool, Seq<Seq<char>>), Seq<char>>(
                    message@,
                ),
            },
    {
        QemuSupportedArch::parse(s)
    }
}

} // verus!
