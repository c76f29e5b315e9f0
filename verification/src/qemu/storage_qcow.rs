//! Disk images: their options, and the `qemu-img` commands that make them.
use vstd::prelude::*;

use crate::number::decimal;
use crate::number::decimal_text;
use crate::qemu::img_json::QemuImgInfo;
use crate::qemu::storage::QemuStorageCreateError;
use crate::text::cat2;
use crate::text::copy_opt;
use crate::text::join_texts;
use crate::text::joined;
use crate::text::lemma_texts_add;
use crate::text::lemma_texts_push;
use crate::text::opt_text;
use crate::text::texts;

verus! {

broadcast use {lemma_texts_push, lemma_texts_add};

/// The image utility of QEMU.
pub const QEMU_BIN_IMG: &'static str = "qemu-img";

/// `qemu-img` format identifier for qcow2-backed disks.
pub const QEMU_IMG_FORMAT_QCOW2: &'static str = "qcow2";

/// File extension used for qcow2 images managed by this backend.
pub const QEMU_IMG_FILE_EXT_QCOW2: &'static str = "qcow2";

/// `qemu-img` format identifier for raw disk images.
pub const QEMU_IMG_FORMAT_RAW: &'static str = "raw";

/// File extension used for raw disk images managed by this backend.
pub const QEMU_IMG_FILE_EXIT_RAW: &'static str = "img";

/// How the space of a new image is reserved.
#[derive(Clone, Copy, Debug, PartialEq, Eq, Structural, Hash, PartialOrd, Ord)]
pub enum QcowPreallocation {
    Off,
    Metadata,
    Falloc,
    Full,
}

impl QcowPreallocation {
    /// The name that `qemu-img` knows the mode by.
    pub open spec fn text(self) -> Seq<char> {
        match self {
            QcowPreallocation::Off => "off"@,
            QcowPreallocation::Metadata => "metadata"@,
            QcowPreallocation::Falloc => "falloc"@,
            QcowPreallocation::Full => "full"@,
        }
    }

    /// The name that `qemu-img` knows the mode by.
    pub fn as_qemu_arg(&self) -> (r: &'static str)
        ensures
            r@ == self.text(),
    {
        match self {
            QcowPreallocation::Off => "off",
            QcowPreallocation::Metadata => "metadata",
            QcowPreallocation::Falloc => "falloc",
            QcowPreallocation::Full => "full",
        }
    }
}

/// Options of a new image.
#[derive(Debug, PartialEq, Eq, Hash, PartialOrd, Ord)]
pub struct QcowOptions {
    pub backing_file: Option<String>,
    pub backing_format: Option<String>,
    pub preallocation: Option<QcowPreallocation>,
    pub compat: Option<String>,
    pub cluster_size: Option<u64>,
    pub lazy_refcounts: Option<bool>,
    pub extended_l2: Option<bool>,
}

/// The model of the options of a new image.
pub struct QcowModel {
    pub backing_file: Option<Seq<char>>,
    pub backing_format: Option<Seq<char>>,
    pub preallocation: Option<QcowPreallocation>,
    pub compat: Option<Seq<char>>,
    pub cluster_size: Option<u64>,
    pub lazy_refcounts: Option<bool>,
    pub extended_l2: Option<bool>,
}

impl View for QcowOptions {
    type V = QcowModel;

    open spec fn view(&self) -> QcowModel {
        QcowModel {
            backing_file: opt_text(self.backing_file),
            backing_format: opt_text(self.backing_format),
            preallocation: self.preallocation,
            compat: opt_text(self.compat),
            cluster_size: self.cluster_size,
            lazy_refcounts: self.lazy_refcounts,
            extended_l2: self.extended_l2,
        }
    }
}

impl Clone for QcowOptions {
    fn clone(&self) -> (r: Self)
        ensures
            r == *self,
    {
        QcowOptions {
            backing_file: copy_opt(&self.backing_file),
            backing_format: copy_opt(&self.backing_format),
            preallocation: self.preallocation,
            compat: copy_opt(&self.compat),
            cluster_size: self.cluster_size,
            lazy_refcounts: self.lazy_refcounts,
            extended_l2: self.extended_l2,
        }
    }
}

impl Default for QcowOptions {
    /// No option is set.
    fn default() -> (r: Self)
        ensures
            r@ == (QcowModel {
                backing_file: None,
                backing_format: None,
                preallocation: None,
                compat: None,
                cluster_size: None,
                lazy_refcounts: None,
                extended_l2: None,
            }),
    {
        QcowOptions {
            backing_file: None,
            backing_format: None,
            preallocation: None,
            compat: None,
            cluster_size: None,
            lazy_refcounts: None,
            extended_l2: None,
        }
    }
}

/// A switch as `qemu-img` writes it.
pub open spec fn on_off(flag: bool) -> Seq<char> {
    if flag {
        "on"@
    } else {
        "off"@
    }
}

/// A setting, where it is set: its key with its value.
pub open spec fn setting(key: Seq<char>, value: Option<Seq<char>>) -> Seq<Seq<char>> {
    match value {
        Some(v) => seq![key + v],
        None => seq![],
    }
}

impl QcowModel {
    /// The settings for `qemu-img create -o`, in a fixed order.
    pub open spec fn settings(self) -> Seq<Seq<char>> {
        setting("backing_file="@, self.backing_file) + setting("backing_fmt="@, self.backing_format)
            + setting(
            "preallocation="@,
            match self.preallocation {
                Some(p) => Some(p.text()),
                None => None,
            },
        ) + setting("compat="@, self.compat) + setting(
            "cluster_size="@,
            match self.cluster_size {
                Some(n) => Some(decimal(n as nat)),
                None => None,
            },
        ) + setting(
            "lazy_refcounts="@,
            match self.lazy_refcounts {
                Some(b) => Some(on_off(b)),
                None => None,
            },
        ) + setting(
            "extended_l2="@,
            match self.extended_l2 {
                Some(b) => Some(on_off(b)),
                None => None,
            },
        )
    }
}

fn on_off_text(flag: bool) -> (r: &'static str)
    ensures
        r@ == on_off(flag),
{
    if flag {
        "on"
    } else {
        "off"
    }
}

fn push_setting(opts: &mut Vec<String>, key: &str, value: Option<&str>)
    ensures
        texts(final(opts)@) == texts(old(opts)@) + setting(
            key@,
            match value {
                Some(v) => Some(v@),
                None => None,
            },
        ),
{
    match value {
        Some(v) => {
            opts.push(cat2(key, v));
            proof {
                assert(texts(opts@) =~= texts(old(opts)@) + seq![key@ + v@]);
            }
        },
        None => {
            proof {
                assert(texts(opts@) =~= texts(old(opts)@) + Seq::<Seq<char>>::empty());
            }
        },
    }
}

fn as_opt_str(o: &Option<String>) -> (r: Option<&str>)
    ensures
        r is Some == o is Some,
        r is Some ==> r->0@ == o->0@,
{
    match o {
        Some(s) => Some(s.as_str()),
        None => None,
    }
}

impl QcowOptions {
    /// The settings for `qemu-img create -o`, in a fixed order.
    pub fn create_options(&self) -> (r: Vec<String>)
        ensures
            texts(r@) == self@.settings(),
    {
        let mut opts: Vec<String> = Vec::new();
        push_setting(&mut opts, "backing_file=", as_opt_str(&self.backing_file));
        proof {
            assert(texts(opts@) =~= setting("backing_file="@, self@.backing_file));
        }
        push_setting(&mut opts, "backing_fmt=", as_opt_str(&self.backing_format));
        let preallocation = match &self.preallocation {
            Some(p) => Some(p.as_qemu_arg()),
            None => None,
        };
        push_setting(&mut opts, "preallocation=", preallocation);
        push_setting(&mut opts, "compat=", as_opt_str(&self.compat));
        let cluster_size = match self.cluster_size {
            Some(n) => Some(decimal_text(n)),
            None => None,
        };
        push_setting(&mut opts, "cluster_size=", as_opt_str(&cluster_size));
        let lazy_refcounts = match self.lazy_refcounts {
            Some(b) => Some(on_off_text(b)),
            None => None,
        };
        push_setting(&mut opts, "lazy_refcounts=", lazy_refcounts);
        let extended_l2 = match self.extended_l2 {
            Some(b) => Some(on_off_text(b)),
            None => None,
        };
        push_setting(&mut opts, "extended_l2=", extended_l2);
        opts
    }
}

/// The words of `qemu-img create`.
pub open spec fn img_create_words(
    format: Seq<char>,
    filename: Seq<char>,
    size: Option<u64>,
    options: QcowModel,
) -> Seq<Seq<char>> {
    let settings = joined(options.settings(), ","@);
    seq!["create"@, "--format"@, format] + (if settings.len() > 0 {
        seq!["-o"@, settings]
    } else {
        seq![]
    }) + seq![filename] + (match size {
        Some(n) => seq![decimal(n as nat)],
        None => seq![],
    })
}

/// The arguments of `qemu-img create`.
pub fn qemu_img_create(format: &str, filename: &str, size: Option<u64>, options: &QcowOptions) -> (r:
    Vec<String>)
    ensures
        texts(r@) == img_create_words(format@, filename@, size, options@),
{
    let settings = join_texts(&options.create_options(), ",");
    let mut args: Vec<String> = Vec::new();
    args.push("create".to_owned());
    args.push("--format".to_owned());
    args.push(format.to_owned());
    let ghost mut words = seq!["create"@, "--format"@, format@];
    assert(texts(args@) =~= words);
    if settings.as_str().unicode_len() > 0 {
        args.push("-o".to_owned());
        args.push(settings);
        proof {
            words = words + seq!["-o"@, settings@];
        }
    } else {
        proof {
            words = words + Seq::<Seq<char>>::empty();
        }
    }
    assert(texts(args@) =~= words);
    args.push(filename.to_owned());
    proof {
        words = words + seq![filename@];
    }
    assert(texts(args@) =~= words);
    match size {
        Some(n) => {
            args.push(decimal_text(n));
            proof {
                words = words + seq![decimal(n as nat)];
            }
        },
        None => {
            proof {
                words = words + Seq::<Seq<char>>::empty();
            }
        },
    }
    assert(texts(args@) =~= words);
    args
}

/// The words of `qemu-img resize`.
pub open spec fn img_resize_words(filename: Seq<char>, size: u64, shrink: bool) -> Seq<Seq<char>> {
    if shrink {
        seq!["resize"@, "--shrink"@, filename, decimal(size as nat)]
    } else {
        seq!["resize"@, filename, decimal(size as nat)]
    }
}

/// The arguments of `qemu-img resize`; an image is only made smaller when asked
/// to.
pub fn qemu_img_resize(filename: &str, size: u64, shrink: bool) -> (r: Vec<String>)
    ensures
        texts(r@) == img_resize_words(filename@, size, shrink),
{
    let mut args: Vec<String> = Vec::new();
    args.push("resize".to_owned());
    if shrink {
        args.push("--shrink".to_owned());
    }
    args.push(filename.to_owned());
    args.push(decimal_text(size));
    proof {
        assert(texts(args@) =~= img_resize_words(filename@, size, shrink));
    }
    args
}

/// The words of `qemu-img info`.
pub open spec fn img_info_words(filename: Seq<char>) -> Seq<Seq<char>> {
    seq!["info"@, "--force-share"@, "--output"@, "json"@, filename]
}

/// The arguments of `qemu-img info`.
pub fn inspect_qemu_image(filename: &str) -> (r: Vec<String>)
    ensures
        texts(r@) == img_info_words(filename@),
{
    let mut args: Vec<String> = Vec::new();
    args.push("info".to_owned());
    args.push("--force-share".to_owned());
    args.push("--output".to_owned());
    args.push("json".to_owned());
    args.push(filename.to_owned());
    proof {
        assert(texts(args@) =~= img_info_words(filename@));
    }
    args
}

/// The result of inspecting a storage artifact.
#[derive(Debug)]
pub enum QemuImgResult {
    /// What `qemu-img info` told.
    Info(QemuImgInfo),
    /// Failure encountered while inspecting or validating the image.
    Failed(QemuStorageCreateError),
}

/// How an image may be resized.
#[derive(Clone, Copy, Debug, PartialEq, Eq, Structural)]
pub enum QemuResizeType {
    /// Allow the operation when the new size is smaller than the original.
    Shrink,
    /// Specify a format-specific preallocation type for the new areas.
    Preallocation,
}

/// The arguments of `qemu-img create` for an image without options: the format,
/// the file and the size, where one is given; options are joined by commas
/// behind `-o`.
pub proof fn law_create_arguments(
    format: Seq<char>,
    filename: Seq<char>,
    size: Option<u64>,
    options: QcowModel,
)
    ensures
        ({
            let words = img_create_words(format, filename, size, options);
            let list = joined(options.settings(), ","@);
            let n = if list.len() > 0 {
                5int
            } else {
                3
            };
            &&& words[0] == "create"@ && words[1] == "--format"@ && words[2] == format
            &&& list.len() > 0 ==> words[3] == "-o"@ && words[4] == list
            &&& words[n] == filename
            &&& match size {
                Some(bytes) => words.len() == n + 2 && words.last() == decimal(bytes as nat),
                None => words.len() == n + 1,
            }
        }),
{
}

/// What is set of the options of an image, and nothing else, stands among its
/// settings, in a fixed order.
pub proof fn law_create_settings(options: QcowModel)
    ensures
        ({
            let none = Seq::<Seq<char>>::empty();
            options.settings() == (match options.backing_file {
                Some(file) => seq!["backing_file="@ + file],
                None => none,
            }) + (match options.backing_format {
                Some(format) => seq!["backing_fmt="@ + format],
                None => none,
            }) + (match options.preallocation {
                Some(QcowPreallocation::Off) => seq!["preallocation="@ + "off"@],
                Some(QcowPreallocation::Metadata) => seq!["preallocation="@ + "metadata"@],
                Some(QcowPreallocation::Falloc) => seq!["preallocation="@ + "falloc"@],
                Some(QcowPreallocation::Full) => seq!["preallocation="@ + "full"@],
                None => none,
            }) + (match options.compat {
                Some(compat) => seq!["compat="@ + compat],
                None => none,
            }) + (match options.cluster_size {
                Some(n) => seq!["cluster_size="@ + decimal(n as nat)],
                None => none,
            }) + (match options.lazy_refcounts {
                Some(true) => seq!["lazy_refcounts="@ + "on"@],
                Some(false) => seq!["lazy_refcounts="@ + "off"@],
                None => none,
            }) + (match options.extended_l2 {
                Some(true) => seq!["extended_l2="@ + "on"@],
                Some(false) => seq!["extended_l2="@ + "off"@],
                None => none,
            })
        }),
{
}

} // verus!
