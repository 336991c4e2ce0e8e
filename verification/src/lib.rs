//! File-descriptor tables, open-file state and small device and kexec
//! helpers of a kernel's virtual file system, with their contracts; and a
//! checker of xz streams built on the xz4rust decoder.

pub mod errno;
pub mod fd_table;
pub mod file;
pub mod file_mode;
pub mod file_operations;
pub mod kexec;
pub mod pid;
pub mod readdir;
pub mod urandom;
pub mod vfs;
pub mod xz_check;
