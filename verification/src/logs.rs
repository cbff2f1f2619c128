//! Append-only log files with one rotated backup.
//!
//! Before a child is launched its log file is prepared: a file that has grown
//! past the threshold is renamed to the backup name, over any earlier backup,
//! and the log is opened for appending. The library decides; the host carries
//! the file operations out in the order given.

use vstd::prelude::*;
use vstd::string::*;

verus! {

/// The size in bytes above which a log file is rotated: the configured number
/// of megabytes, and at least one.
pub open spec fn rotation_threshold(max_log_size_mb: u32) -> nat {
    (if max_log_size_mb < 1 {
        1nat
    } else {
        max_log_size_mb as nat
    }) * 1024 * 1024
}

/// Whether a log file of this size is rotated. A file that does not exist has
/// no size and is not.
pub open spec fn needs_rotation(existing_size: Option<u64>, max_log_size_mb: u32) -> bool {
    existing_size matches Some(size) && size > rotation_threshold(max_log_size_mb)
}

/// The name of the one backup of a log file.
pub open spec fn backup_path(log_path: Seq<char>) -> Seq<char> {
    log_path + ".1"@
}

/// One operation on the file system that the host performs.
#[derive(Clone, Debug, PartialEq, Eq)]
pub enum FileOp {
    /// Delete the file if it exists.
    Remove { path: String },
    /// Rename a file, replacing the target if it exists.
    Rename { from: String, to: String },
    /// Open the file for appending, creating it empty if it does not exist.
    OpenAppend { path: String },
}

pub enum FileOpView {
    Remove { path: Seq<char> },
    Rename { from: Seq<char>, to: Seq<char> },
    OpenAppend { path: Seq<char> },
}

impl View for FileOp {
    type V = FileOpView;

    open spec fn view(&self) -> FileOpView {
        match self {
            FileOp::Remove { path } => FileOpView::Remove { path: path@ },
            FileOp::Rename { from, to } => FileOpView::Rename { from: from@, to: to@ },
            FileOp::OpenAppend { path } => FileOpView::OpenAppend { path: path@ },
        }
    }
}

/// The views of a list of file operations.
pub open spec fn op_views(ops: Seq<FileOp>) -> Seq<FileOpView> {
    ops.map_values(|op: FileOp| op@)
}

/// The operations that prepare a log file for writing.
pub open spec fn log_preparation(
    log_path: Seq<char>,
    max_log_size_mb: u32,
    existing_size: Option<u64>,
) -> Seq<FileOpView> {
    if needs_rotation(existing_size, max_log_size_mb) {
        seq![
            FileOpView::Remove { path: backup_path(log_path) },
            FileOpView::Rename { from: log_path, to: backup_path(log_path) },
            FileOpView::OpenAppend { path: log_path },
        ]
    } else {
        seq![FileOpView::OpenAppend { path: log_path }]
    }
}

/// Decides how the log file at `log_path` is prepared for a new child.
/// `existing_size` is the file's size in bytes, or `None` if there is no file.
pub fn prepare_log_file(log_path: &str, max_log_size_mb: u32, existing_size: Option<u64>) -> (ops:
    Vec<FileOp>)
    ensures
        op_views(ops@) == log_preparation(log_path@, max_log_size_mb, existing_size),
{
    let megabytes: u64 = if max_log_size_mb < 1 {
        1
    } else {
        max_log_size_mb as u64
    };
    let max_bytes: u64 = megabytes * 1024 * 1024;
    let rotate = match existing_size {
        Some(size) => size > max_bytes,
        None => false,
    };
    let mut ops: Vec<FileOp> = Vec::new();
    if rotate {
        let mut backup = String::from_str(log_path);
        backup.append(".1");
        ops.push(FileOp::Remove { path: backup.clone() });
        ops.push(FileOp::Rename { from: String::from_str(log_path), to: backup });
    }
    ops.push(FileOp::OpenAppend { path: String::from_str(log_path) });
    assert(op_views(ops@) =~= log_preparation(log_path@, max_log_size_mb, existing_size));
    ops
}

/// The files of a directory tree: the content of each path that exists.
pub type Files = Map<Seq<char>, Seq<u8>>;

/// The files after one operation that succeeds.
pub open spec fn files_after_op(files: Files, op: FileOpView) -> Files {
    match op {
        FileOpView::Remove { path } => files.remove(path),
        FileOpView::Rename { from, to } => if files.dom().contains(from) {
            files.remove(from).insert(to, files[from])
        } else {
            files
        },
        FileOpView::OpenAppend { path } => if files.dom().contains(path) {
            files
        } else {
            files.insert(path, Seq::empty())
        },
    }
}

/// The files after a list of operations, each of which succeeds.
pub open spec fn files_after(files: Files, ops: Seq<FileOpView>) -> Files
    decreases ops.len(),
{
    if ops.len() == 0 {
        files
    } else {
        files_after_op(files_after(files, ops.drop_last()), ops.last())
    }
}

/// Rotation keeps one backup. Preparing a log file that is over the threshold
/// leaves the earlier content under the backup name and an empty log file. No
/// other path is created or changed, so repeating it never leaves more than
/// the one backup.
pub proof fn lemma_rotation_keeps_one_backup(files: Files, log_path: Seq<char>, max_log_size_mb: u32)
    requires
        files.dom().contains(log_path),
        rotation_threshold(max_log_size_mb) < files[log_path].len() <= u64::MAX,
    ensures
        files_after(
            files,
            log_preparation(log_path, max_log_size_mb, Some(files[log_path].len() as u64)),
        ) == files.insert(backup_path(log_path), files[log_path]).insert(log_path, Seq::empty()),
        files_after(
            files,
            log_preparation(log_path, max_log_size_mb, Some(files[log_path].len() as u64)),
        ).dom() == files.dom().insert(backup_path(log_path)),
{
    let ops = log_preparation(log_path, max_log_size_mb, Some(files[log_path].len() as u64));
    let backup = backup_path(log_path);
    reveal_strlit(".1");
    assert(backup.len() == log_path.len() + 2);
    assert(backup != log_path);
    let ops1 = ops.drop_last();
    let ops2 = ops1.drop_last();
    assert(ops2.drop_last().len() == 0);
    assert(files_after(files, ops2.drop_last()) == files);
    let f1 = files_after(files, ops2);
    assert(ops2.last() == FileOpView::Remove { path: backup });
    assert(f1 == files.remove(backup));
    let f2 = files_after(files, ops1);
    assert(ops1.last() == FileOpView::Rename { from: log_path, to: backup });
    assert(f2 == f1.remove(log_path).insert(backup, f1[log_path]));
    let f3 = files_after(files, ops);
    assert(f3 == f2.insert(log_path, Seq::empty()));
    assert(f3 =~= files.insert(backup, files[log_path]).insert(log_path, Seq::empty()));
    assert(f3.dom() =~= files.dom().insert(backup));
}

/// A log file that is not over the threshold is opened as it is: preparing it
/// changes no existing file, and creates the log file empty where there was
/// none.
pub proof fn lemma_small_log_is_kept(
    files: Files,
    log_path: Seq<char>,
    max_log_size_mb: u32,
    existing_size: Option<u64>,
)
    requires
        !needs_rotation(existing_size, max_log_size_mb),
    ensures
        files_after(files, log_preparation(log_path, max_log_size_mb, existing_size)) == (
        if files.dom().contains(log_path) {
            files
        } else {
            files.insert(log_path, Seq::empty())
        }),
{
    let ops = log_preparation(log_path, max_log_size_mb, existing_size);
    assert(ops.drop_last().len() == 0);
    assert(files_after(files, ops.drop_last()) == files);
}

} // verus!
