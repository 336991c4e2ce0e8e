# dragonos_kernel

Pieces of a kernel's virtual file system and kexec support, with their
behaviour stated in contracts and proved:

- `fd_table`: the per-process table of open file descriptors (allocation of
  the lowest free descriptor, lookup, release, duplication, close-on-exec),
  with its laws (read after allocation, release restores, open count).
- `file`: an open file over a node (`vfs::IndexNode`): reading, writing,
  seeking, directory listing into a `readdir::FilldirContext`, mode flags.
- `file_mode`: the open flags as a bit set.
- `urandom`: the `/dev/urandom` node, its state behind a lock.
- `kexec`: the image of a kernel to switch to with its control page (the
  first offered page outside every segment's destination), and the pages its
  identity page table maps.
- `xz_check`: checking that a byte string is a complete, valid xz stream
  (checksums included) by reading it to its end through xz4rust's
  `XzReader`; the verdict is stated over a name for what that reading gives.

`app/` holds the `xzcheck` command (file reading, arguments, exit codes) and
the descriptor-table register loads, which take inline assembly.
