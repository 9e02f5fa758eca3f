//! Storage failures, categorized by what the caller should do.

use vstd::prelude::*;
use vstd::string::StringExecFns;

verus! {

/// Storage-specific error kinds.
#[derive(Debug, Clone, Copy, PartialEq, Eq, Hash, Structural)]
pub enum StorageErrorKind {
    /// File or resource not found.
    NotFound,
    /// Directory not found.
    DirectoryNotFound,
    /// Permission denied for the operation.
    PermissionDenied,
    /// File already exists.
    AlreadyExists,
    /// Is a directory (expected a file).
    IsDirectory,
    /// Is not a directory (expected a directory).
    NotDirectory,
    /// Disk full or quota exceeded.
    DiskFull,
    /// Disk I/O error.
    IoError,
    /// File name too long.
    FileNameTooLong,
    /// Path too long.
    PathTooLong,
    /// Too many open files.
    TooManyOpenFiles,
    /// Storage device is read-only.
    ReadOnly,
    /// Storage device is full.
    StorageFull,
    /// Network storage connection error.
    NetworkError,
    /// Network storage timeout.
    NetworkTimeout,
    /// Invalid filename.
    InvalidFilename,
    /// Invalid path.
    InvalidPath,
    /// Symlink loop detected.
    SymlinkLoop,
    /// Too many symbolic links.
    TooManySymlinks,
}

impl StorageErrorKind {
    /// The kinds that are worth retrying.
    pub open spec fn retryable(self) -> bool {
        self is IoError
            || self is TooManyOpenFiles
            || self is NetworkError
            || self is NetworkTimeout
    }

    /// The path-related kinds.
    pub open spec fn path_error(self) -> bool {
        self is NotFound
            || self is DirectoryNotFound
            || self is InvalidPath
            || self is InvalidFilename
            || self is IsDirectory
            || self is NotDirectory
            || self is SymlinkLoop
            || self is TooManySymlinks
    }

    /// The permission-related kinds.
    pub open spec fn permission_error(self) -> bool {
        self is PermissionDenied
            || self is ReadOnly
    }

    /// The capacity-related kinds.
    pub open spec fn capacity_error(self) -> bool {
        self is DiskFull
            || self is StorageFull
            || self is TooManyOpenFiles
    }

    /// The network storage kinds.
    pub open spec fn network_error(self) -> bool {
        self is NetworkError
            || self is NetworkTimeout
    }

    /// The I/O kinds.
    pub open spec fn io_error(self) -> bool {
        self is IoError
    }

    /// The kinds about whether the resource exists.
    pub open spec fn existence_error(self) -> bool {
        self is AlreadyExists
            || self is NotFound
            || self is DirectoryNotFound
    }

    /// The name of the category that the kind falls under.
    pub open spec fn category_name(self) -> Seq<char> {
        if self.path_error() {
            "Path"@
        } else if self.permission_error() {
            "Permission"@
        } else if self.capacity_error() {
            "Capacity"@
        } else if self.network_error() {
            "Network"@
        } else if self.io_error() {
            "I/O"@
        } else {
            "Other"@
        }
    }

    /// The machine-readable name, in snake case.
    pub open spec fn machine_name(self) -> Seq<char> {
        match self {
            StorageErrorKind::NotFound => "not_found"@,
            StorageErrorKind::DirectoryNotFound => "directory_not_found"@,
            StorageErrorKind::PermissionDenied => "permission_denied"@,
            StorageErrorKind::AlreadyExists => "already_exists"@,
            StorageErrorKind::IsDirectory => "is_directory"@,
            StorageErrorKind::NotDirectory => "not_directory"@,
            StorageErrorKind::DiskFull => "disk_full"@,
            StorageErrorKind::IoError => "io_error"@,
            StorageErrorKind::FileNameTooLong => "file_name_too_long"@,
            StorageErrorKind::PathTooLong => "path_too_long"@,
            StorageErrorKind::TooManyOpenFiles => "too_many_open_files"@,
            StorageErrorKind::ReadOnly => "read_only"@,
            StorageErrorKind::StorageFull => "storage_full"@,
            StorageErrorKind::NetworkError => "network_error"@,
            StorageErrorKind::NetworkTimeout => "network_timeout"@,
            StorageErrorKind::InvalidFilename => "invalid_filename"@,
            StorageErrorKind::InvalidPath => "invalid_path"@,
            StorageErrorKind::SymlinkLoop => "symlink_loop"@,
            StorageErrorKind::TooManySymlinks => "too_many_symlinks"@,
        }
    }

    /// The human-readable name.
    pub open spec fn display_name(self) -> Seq<char> {
        match self {
            StorageErrorKind::NotFound => "not found"@,
            StorageErrorKind::DirectoryNotFound => "directory not found"@,
            StorageErrorKind::PermissionDenied => "permission denied"@,
            StorageErrorKind::AlreadyExists => "already exists"@,
            StorageErrorKind::IsDirectory => "is a directory"@,
            StorageErrorKind::NotDirectory => "is not a directory"@,
            StorageErrorKind::DiskFull => "disk full"@,
            StorageErrorKind::IoError => "I/O error"@,
            StorageErrorKind::FileNameTooLong => "file name too long"@,
            StorageErrorKind::PathTooLong => "path too long"@,
            StorageErrorKind::TooManyOpenFiles => "too many open files"@,
            StorageErrorKind::ReadOnly => "read-only"@,
            StorageErrorKind::StorageFull => "storage full"@,
            StorageErrorKind::NetworkError => "network error"@,
            StorageErrorKind::NetworkTimeout => "network timeout"@,
            StorageErrorKind::InvalidFilename => "invalid filename"@,
            StorageErrorKind::InvalidPath => "invalid path"@,
            StorageErrorKind::SymlinkLoop => "symlink loop"@,
            StorageErrorKind::TooManySymlinks => "too many symbolic links"@,
        }
    }

    /// Whether this kind represents a retryable condition.
    pub fn is_retryable(&self) -> (res: bool)
        ensures
            res == self.retryable(),
    {
        match self {
            StorageErrorKind::NotFound => false,
            StorageErrorKind::DirectoryNotFound => false,
            StorageErrorKind::PermissionDenied => false,
            StorageErrorKind::AlreadyExists => false,
            StorageErrorKind::IsDirectory => false,
            StorageErrorKind::NotDirectory => false,
            StorageErrorKind::DiskFull => false,
            StorageErrorKind::IoError => true,
            StorageErrorKind::FileNameTooLong => false,
            StorageErrorKind::PathTooLong => false,
            StorageErrorKind::TooManyOpenFiles => true,
            StorageErrorKind::ReadOnly => false,
            StorageErrorKind::StorageFull => false,
            StorageErrorKind::NetworkError => true,
            StorageErrorKind::NetworkTimeout => true,
            StorageErrorKind::InvalidFilename => false,
            StorageErrorKind::InvalidPath => false,
            StorageErrorKind::SymlinkLoop => false,
            StorageErrorKind::TooManySymlinks => false,
        }
    }

    /// Whether this is a path-related error.
    pub fn is_path_error(&self) -> (res: bool)
        ensures
            res == self.path_error(),
    {
        matches!(
            self,
            StorageErrorKind::NotFound
                | StorageErrorKind::DirectoryNotFound
                | StorageErrorKind::InvalidPath
                | StorageErrorKind::InvalidFilename
                | StorageErrorKind::IsDirectory
                | StorageErrorKind::NotDirectory
                | StorageErrorKind::SymlinkLoop
                | StorageErrorKind::TooManySymlinks
        )
    }

    /// Whether this is a permission-related error.
    pub fn is_permission_error(&self) -> (res: bool)
        ensures
            res == self.permission_error(),
    {
        matches!(
            self,
            StorageErrorKind::PermissionDenied
                | StorageErrorKind::ReadOnly
        )
    }

    /// Whether this is a capacity-related error.
    pub fn is_capacity_error(&self) -> (res: bool)
        ensures
            res == self.capacity_error(),
    {
        matches!(
            self,
            StorageErrorKind::DiskFull
                | StorageErrorKind::StorageFull
                | StorageErrorKind::TooManyOpenFiles
        )
    }

    /// Whether this is a network storage error.
    pub fn is_network_error(&self) -> (res: bool)
        ensures
            res == self.network_error(),
    {
        matches!(
            self,
            StorageErrorKind::NetworkError
                | StorageErrorKind::NetworkTimeout
        )
    }

    /// Whether this is an I/O error.
    pub fn is_io_error(&self) -> (res: bool)
        ensures
            res == self.io_error(),
    {
        matches!(
            self,
            StorageErrorKind::IoError
        )
    }

    /// Whether this error is about the existence of the resource.
    pub fn is_existence_error(&self) -> (res: bool)
        ensures
            res == self.existence_error(),
    {
        matches!(
            self,
            StorageErrorKind::AlreadyExists
                | StorageErrorKind::NotFound
                | StorageErrorKind::DirectoryNotFound
        )
    }

    /// The category of this kind.
    pub fn category(&self) -> (res: &'static str)
        ensures
            res@ == self.category_name(),
    {
        if self.is_path_error() {
            "Path"
        } else if self.is_permission_error() {
            "Permission"
        } else if self.is_capacity_error() {
            "Capacity"
        } else if self.is_network_error() {
            "Network"
        } else if self.is_io_error() {
            "I/O"
        } else {
            "Other"
        }
    }

    /// The machine-readable name of this kind.
    pub fn to_machine_string(&self) -> (res: String)
        ensures
            res@ == self.machine_name(),
    {
        match self {
            StorageErrorKind::NotFound => String::from_str("not_found"),
            StorageErrorKind::DirectoryNotFound => String::from_str("directory_not_found"),
            StorageErrorKind::PermissionDenied => String::from_str("permission_denied"),
            StorageErrorKind::AlreadyExists => String::from_str("already_exists"),
            StorageErrorKind::IsDirectory => String::from_str("is_directory"),
            StorageErrorKind::NotDirectory => String::from_str("not_directory"),
            StorageErrorKind::DiskFull => String::from_str("disk_full"),
            StorageErrorKind::IoError => String::from_str("io_error"),
            StorageErrorKind::FileNameTooLong => String::from_str("file_name_too_long"),
            StorageErrorKind::PathTooLong => String::from_str("path_too_long"),
            StorageErrorKind::TooManyOpenFiles => String::from_str("too_many_open_files"),
            StorageErrorKind::ReadOnly => String::from_str("read_only"),
            StorageErrorKind::StorageFull => String::from_str("storage_full"),
            StorageErrorKind::NetworkError => String::from_str("network_error"),
            StorageErrorKind::NetworkTimeout => String::from_str("network_timeout"),
            StorageErrorKind::InvalidFilename => String::from_str("invalid_filename"),
            StorageErrorKind::InvalidPath => String::from_str("invalid_path"),
            StorageErrorKind::SymlinkLoop => String::from_str("symlink_loop"),
            StorageErrorKind::TooManySymlinks => String::from_str("too_many_symlinks"),
        }
    }

    /// The human-readable name of this kind.
    pub fn to_string(&self) -> (res: String)
        ensures
            res@ == self.display_name(),
    {
        match self {
            StorageErrorKind::NotFound => String::from_str("not found"),
            StorageErrorKind::DirectoryNotFound => String::from_str("directory not found"),
            StorageErrorKind::PermissionDenied => String::from_str("permission denied"),
            StorageErrorKind::AlreadyExists => String::from_str("already exists"),
            StorageErrorKind::IsDirectory => String::from_str("is a directory"),
            StorageErrorKind::NotDirectory => String::from_str("is not a directory"),
            StorageErrorKind::DiskFull => String::from_str("disk full"),
            StorageErrorKind::IoError => String::from_str("I/O error"),
            StorageErrorKind::FileNameTooLong => String::from_str("file name too long"),
            StorageErrorKind::PathTooLong => String::from_str("path too long"),
            StorageErrorKind::TooManyOpenFiles => String::from_str("too many open files"),
            StorageErrorKind::ReadOnly => String::from_str("read-only"),
            StorageErrorKind::StorageFull => String::from_str("storage full"),
            StorageErrorKind::NetworkError => String::from_str("network error"),
            StorageErrorKind::NetworkTimeout => String::from_str("network timeout"),
            StorageErrorKind::InvalidFilename => String::from_str("invalid filename"),
            StorageErrorKind::InvalidPath => String::from_str("invalid path"),
            StorageErrorKind::SymlinkLoop => String::from_str("symlink loop"),
            StorageErrorKind::TooManySymlinks => String::from_str("too many symbolic links"),
        }
    }
}

} // verus!
