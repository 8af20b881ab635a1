//! What the shell and file helpers decide before and after they touch the
//! machine.

use vstd::prelude::*;
use crate::text::{blank, is_blank, prefixed};

verus! {

/// A forbidden pattern: deleting a tree without asking.
pub const RM_RF: &'static str = "rm -rf";

/// A forbidden pattern: running as another user.
pub const SUDO: &'static str = "sudo";

/// A forbidden pattern: writing to a device.
pub const DEVICE_REDIRECT: &'static str = "> /dev/";

/// A forbidden pattern: making a file system.
pub const MKFS: &'static str = "mkfs";

/// What is said of a blank command.
pub const EMPTY_COMMAND: &'static str = "Empty command";

/// What precedes the forbidden pattern that a command holds.
pub const DANGEROUS_COMMAND: &'static str = "Potentially dangerous command detected: ";

/// What precedes the path of a file that is not there.
pub const FILE_MISSING: &'static str = "File does not exist: ";

/// What precedes a path that should lead to a file and does not.
pub const NOT_A_FILE: &'static str = "Path is not a file: ";

/// What precedes the path of a directory that is not there.
pub const DIRECTORY_MISSING: &'static str = "Directory does not exist: ";

/// What precedes a path that should lead to a directory and does not.
pub const NOT_A_DIRECTORY: &'static str = "Path is not a directory: ";

/// What a command left behind.
#[derive(Debug, PartialEq, Eq)]
pub struct CommandOutput {
    pub stdout: String,
    pub stderr: String,
    pub success: bool,
}

/// One entry of a directory listing.
#[derive(Debug, PartialEq, Eq)]
pub struct FileEntry {
    pub name: String,
    pub path: String,
    pub is_dir: bool,
    /// The size in bytes, for a regular file.
    pub size: Option<u64>,
}

impl FileEntry {
    /// The entry for what the file system says of a path. Only a regular file
    /// has a size.
    pub fn new(name: String, path: String, is_dir: bool, is_file: bool, len: u64) -> (entry: Self)
        ensures
            entry.name == name,
            entry.path == path,
            entry.is_dir == is_dir,
            entry.size == if is_file {
                Some(len)
            } else {
                None
            },
    {
        FileEntry {
            name,
            path,
            is_dir,
            size: if is_file {
                Some(len)
            } else {
                None
            },
        }
    }
}

/// Why a helper did not do what it was asked.
#[derive(Debug, PartialEq, Eq)]
pub enum ToolError {
    /// The command was blank.
    EmptyCommand,
    /// The command holds this pattern.
    DangerousCommand(String),
    /// Nothing stands at this path.
    FileMissing(String),
    /// What stands at this path is no regular file.
    NotAFile(String),
    /// Nothing stands at this path.
    DirectoryMissing(String),
    /// What stands at this path is no directory.
    NotADirectory(String),
}

impl ToolError {
    /// The one line that tells what went wrong.
    pub open spec fn message_text(self) -> Seq<char> {
        match self {
            ToolError::EmptyCommand => EMPTY_COMMAND@,
            ToolError::DangerousCommand(pattern) => DANGEROUS_COMMAND@ + pattern@,
            ToolError::FileMissing(path) => FILE_MISSING@ + path@,
            ToolError::NotAFile(path) => NOT_A_FILE@ + path@,
            ToolError::DirectoryMissing(path) => DIRECTORY_MISSING@ + path@,
            ToolError::NotADirectory(path) => NOT_A_DIRECTORY@ + path@,
        }
    }

    /// The one line that tells what went wrong.
    pub fn message(&self) -> (message: String)
        ensures
            message@ == self.message_text(),
    {
        match self {
            ToolError::EmptyCommand => EMPTY_COMMAND.to_owned(),
            ToolError::DangerousCommand(pattern) => prefixed(DANGEROUS_COMMAND, pattern.as_str()),
            ToolError::FileMissing(path) => prefixed(FILE_MISSING, path.as_str()),
            ToolError::NotAFile(path) => prefixed(NOT_A_FILE, path.as_str()),
            ToolError::DirectoryMissing(path) => prefixed(DIRECTORY_MISSING, path.as_str()),
            ToolError::NotADirectory(path) => prefixed(NOT_A_DIRECTORY, path.as_str()),
        }
    }
}

/// Whether `pattern` stands somewhere in `text`, character for character.
pub open spec fn occurs_in(pattern: Seq<char>, text: Seq<char>) -> bool {
    exists|i: int|
        0 <= i && i + pattern.len() <= text.len() && #[trigger] text.subrange(
            i,
            i + pattern.len(),
        ) == pattern
}

/// `str::contains` with a string as the pattern: whether `pattern` stands
/// somewhere in `text`.
#[verifier::external_body]
fn str_contains(text: &str, pattern: &str) -> (found: bool)
    ensures
        found == occurs_in(pattern@, text@),
{
    text.contains(pattern)
}

/// The first of the forbidden patterns that `command` holds.
pub open spec fn dangerous_pattern(command: Seq<char>) -> Option<Seq<char>> {
    if occurs_in(RM_RF@, command) {
        Some(RM_RF@)
    } else if occurs_in(SUDO@, command) {
        Some(SUDO@)
    } else if occurs_in(DEVICE_REDIRECT@, command) {
        Some(DEVICE_REDIRECT@)
    } else if occurs_in(MKFS@, command) {
        Some(MKFS@)
    } else {
        None
    }
}

/// Whether `command` may be handed to the shell. A blank command is refused
/// as empty, and one that holds a forbidden pattern is refused with the first
/// such pattern.
pub fn check_command(command: &str) -> (verdict: Result<(), ToolError>)
    ensures
        is_blank(command@) ==> verdict == Err::<(), ToolError>(ToolError::EmptyCommand),
        !is_blank(command@) ==> match dangerous_pattern(command@) {
            Some(pattern) => (verdict matches Err(ToolError::DangerousCommand(found)) && found@
                == pattern),
            None => verdict is Ok,
        },
{
    if blank(command) {
        Err(ToolError::EmptyCommand)
    } else if str_contains(command, RM_RF) {
        Err(ToolError::DangerousCommand(RM_RF.to_owned()))
    } else if str_contains(command, SUDO) {
        Err(ToolError::DangerousCommand(SUDO.to_owned()))
    } else if str_contains(command, DEVICE_REDIRECT) {
        Err(ToolError::DangerousCommand(DEVICE_REDIRECT.to_owned()))
    } else if str_contains(command, MKFS) {
        Err(ToolError::DangerousCommand(MKFS.to_owned()))
    } else {
        Ok(())
    }
}

/// Whether the file at `path` may be read, given what the file system says
/// of it.
pub fn check_file(path: &str, exists: bool, is_file: bool) -> (verdict: Result<(), ToolError>)
    ensures
        !exists ==> (verdict matches Err(ToolError::FileMissing(named)) && named@ == path@),
        exists && !is_file ==> (verdict matches Err(ToolError::NotAFile(named)) && named@
            == path@),
        exists && is_file ==> verdict is Ok,
{
    if !exists {
        Err(ToolError::FileMissing(path.to_owned()))
    } else if !is_file {
        Err(ToolError::NotAFile(path.to_owned()))
    } else {
        Ok(())
    }
}

/// Whether the directory at `path` may be listed, given what the file system
/// says of it.
pub fn check_directory(path: &str, exists: bool, is_dir: bool) -> (verdict: Result<(), ToolError>)
    ensures
        !exists ==> (verdict matches Err(ToolError::DirectoryMissing(named)) && named@
            == path@),
        exists && !is_dir ==> (verdict matches Err(ToolError::NotADirectory(named)) && named@
            == path@),
        exists && is_dir ==> verdict is Ok,
{
    if !exists {
        Err(ToolError::DirectoryMissing(path.to_owned()))
    } else if !is_dir {
        Err(ToolError::NotADirectory(path.to_owned()))
    } else {
        Ok(())
    }
}

} // verus!
