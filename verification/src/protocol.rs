//! Messages exchanged between clients and the daemon.

use vstd::prelude::*;

verus! {

/// Media type of an attachment.
#[derive(Debug, Clone, Copy, PartialEq, Eq, Structural)]
pub enum MediaType {
    /// Audio (voice, can be transcribed)
    Audio,
    /// Image
    Image,
    /// Video
    Video,
}

/// Reference to a media item carried on a media track.
#[derive(Debug, Clone)]
pub struct MediaRef {
    pub id: String,
    pub ty: MediaType,
}

/// Confirmation mode as requested by a client.
#[derive(Debug, Clone, Copy, PartialEq, Eq, Structural)]
pub enum ConfirmMode {
    /// Auto-approve all confirmations
    Auto,
    /// Forward confirmations to client for approval
    Manual,
}

/// Kind of a directory entry.
#[derive(Debug, Clone, Copy, PartialEq, Eq, Structural)]
pub enum FileType {
    File,
    Dir,
    Symlink,
}

/// One entry of a directory listing.
#[derive(Debug, Clone)]
pub struct FileEntry {
    pub name: String,
    pub ty: FileType,
    pub size: Option<u64>,
    pub modified: Option<u64>,
}

/// Client -> daemon messages.
#[derive(Debug, Clone)]
pub enum ClientMessage {
    /// Chat message
    Chat { message: String, conversation_id: Option<u128> },
    /// Chat with media attachment
    ChatWithMedia { message: String, media: MediaRef },
    /// List directory contents
    FileList { path: String },
    /// Read file content
    FileRead { path: String },
    /// Write file content
    FileWrite { path: String, content: String },
    /// Switch confirmation mode
    SetConfirmMode { mode: ConfirmMode },
    /// Acknowledge/confirm action
    Ack,
}

/// Daemon -> client messages.
#[derive(Debug, Clone)]
pub enum ServerMessage {
    /// Streaming chat response chunk
    ChatChunk { text: String },
    /// Chat response completed
    ChatDone { conversation_id: u128 },
    /// Directory listing result
    FileList { entries: Vec<FileEntry> },
    /// File content
    FileContent { content: String },
    /// File write acknowledgment
    FileWritten { path: String },
    /// Command output
    CommandOutput { stdout: String, stderr: String, exit_code: i32 },
    /// Error message
    Error { code: String, message: String },
    /// Acknowledgment required from user
    NeedAck { prompt: String },
}

/// The kind a directory entry is listed as: a directory first, then a
/// symbolic link, and a regular file otherwise.
pub open spec fn listed_file_type(is_dir: bool, is_symlink: bool) -> FileType {
    if is_dir {
        FileType::Dir
    } else if is_symlink {
        FileType::Symlink
    } else {
        FileType::File
    }
}

/// A directory is listed as a directory whatever else its metadata says; a
/// symbolic link that is not a directory as a link; anything else as a file.
pub proof fn law_listing_kinds(is_dir: bool, is_symlink: bool)
    ensures
        is_dir ==> listed_file_type(is_dir, is_symlink) == FileType::Dir,
        !is_dir && is_symlink ==> listed_file_type(is_dir, is_symlink) == FileType::Symlink,
        !is_dir && !is_symlink ==> listed_file_type(is_dir, is_symlink) == FileType::File,
{
}

impl FileEntry {
    /// Builds the listing entry of a directory entry from what its metadata
    /// says: the size is reported for regular files only.
    pub fn from_metadata(
        name: String,
        is_dir: bool,
        is_symlink: bool,
        is_file: bool,
        len: u64,
        modified: Option<u64>,
    ) -> (entry: FileEntry)
        ensures
            entry.name == name,
            entry.ty == listed_file_type(is_dir, is_symlink),
            entry.size == (if is_file { Some(len) } else { None::<u64> }),
            entry.modified == modified,
    {
        let ty = if is_dir {
            FileType::Dir
        } else if is_symlink {
            FileType::Symlink
        } else {
            FileType::File
        };
        FileEntry { name, ty, size: if is_file { Some(len) } else { None }, modified }
    }
}

} // verus!
