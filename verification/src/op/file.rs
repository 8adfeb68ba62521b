//! Files: reading and writing, opening and closing, and their metadata.

use super::{blank, IoUringSqe, Sqe};
use crate::owned::buffer::{StableBuffer, StableBufferMut};
use crate::owned::path::OwnedPath;
use crate::types::abi::{IoVec, OpenHow, Placed, Statx};
use crate::types::codes::{FadviseAdvice, MadviseAdvice, Opcode};
use crate::types::fd::{DirFd, RawFd};
use crate::types::flags::{
    FallocateMode, FileMode, FsyncFlags, InstallFdFlags, LinkFlags, PipeFlags, RenameFlags,
    SpliceFlags, SqeFlags, StatxFlags, StatxMask, UnlinkFlags,
};
use crate::types::open::OpenFlags;
use vstd::prelude::*;

verus! {

impl Sqe {
    /// Close a descriptor.
    #[verifier::allow_in_spec]
    pub fn close(fd: RawFd) -> Self
        returns
            Sqe(
                IoUringSqe {
                    opcode: Opcode::Close.as_raw(),
                    fd: fd.as_i32(),
                    ..IoUringSqe::zeroed()
                },
            ),
    {
        Sqe(
            IoUringSqe {
                opcode: Opcode::Close.as_raw(),
                fd: fd.as_i32(),
                ..IoUringSqe::zeroed()
            },
        )
    }

    /// Flush a file to its device.
    #[verifier::allow_in_spec]
    pub fn fsync(fd: RawFd, flags: FsyncFlags) -> Self
        returns
            Sqe(
                IoUringSqe {
                    opcode: Opcode::Fsync.as_raw(),
                    fd: fd.as_i32(),
                    op_flags: flags.bits(),
                    ..IoUringSqe::zeroed()
                },
            ),
    {
        Sqe(
            IoUringSqe {
                opcode: Opcode::Fsync.as_raw(),
                fd: fd.as_i32(),
                op_flags: flags.bits(),
                ..IoUringSqe::zeroed()
            },
        )
    }

    /// Flush a file's data, but not all of its metadata.
    #[verifier::allow_in_spec]
    pub fn fdatasync(fd: RawFd) -> Self
        returns
            Sqe::fsync(fd, FsyncFlags::datasync()),
    {
        Sqe::fsync(fd, FsyncFlags::datasync())
    }

    /// Allocate `len` bytes of a file from `offset` on.
    ///
    /// The length is 64 bits wide, so it travels in the address field, and
    /// the mode in the length field.
    #[verifier::allow_in_spec]
    pub fn fallocate(fd: RawFd, mode: FallocateMode, offset: u64, len: u64) -> Self
        returns
            Sqe(
                IoUringSqe {
                    opcode: Opcode::Fallocate.as_raw(),
                    fd: fd.as_i32(),
                    off: offset,
                    addr: len,
                    len: mode.bits(),
                    ..IoUringSqe::zeroed()
                },
            ),
    {
        Sqe(
            IoUringSqe {
                opcode: Opcode::Fallocate.as_raw(),
                fd: fd.as_i32(),
                off: offset,
                addr: len,
                len: mode.bits(),
                ..IoUringSqe::zeroed()
            },
        )
    }

    /// Read from `fd` at `offset` into `buf`.
    ///
    /// An offset of `u64::MAX` means the current position.
    #[verifier::allow_in_spec]
    pub fn read<B: StableBufferMut>(fd: RawFd, buf: &B, offset: u64) -> Self
        requires
            buf.bytes().len() <= u32::MAX,
        returns
            Sqe::read_ptr(fd, buf.addr() as u64, buf.bytes().len() as u32, offset),
    {
        Sqe::read_ptr(fd, buf.stable_ptr() as u64, buf.stable_len() as u32, offset)
    }

    /// Write what `buf` holds to `fd` at `offset`.
    ///
    /// An offset of `u64::MAX` means the current position.
    #[verifier::allow_in_spec]
    pub fn write<B: StableBuffer>(fd: RawFd, buf: &B, offset: u64) -> Self
        requires
            buf.bytes().len() <= u32::MAX,
        returns
            Sqe::write_ptr(fd, buf.addr() as u64, buf.bytes().len() as u32, offset),
    {
        Sqe::write_ptr(fd, buf.stable_ptr() as u64, buf.stable_len() as u32, offset)
    }

    /// Read into several buffers.
    #[verifier::allow_in_spec]
    pub fn readv(fd: RawFd, iovecs: &Placed<Vec<IoVec>>, offset: u64) -> Self
        requires
            iovecs.value@.len() <= u32::MAX,
        returns
            Sqe::readv_ptr(fd, iovecs.addr, iovecs.value@.len() as u32, offset),
    {
        Sqe::readv_ptr(fd, iovecs.addr, iovecs.value.len() as u32, offset)
    }

    /// Write from several buffers.
    #[verifier::allow_in_spec]
    pub fn writev(fd: RawFd, iovecs: &Placed<Vec<IoVec>>, offset: u64) -> Self
        requires
            iovecs.value@.len() <= u32::MAX,
        returns
            Sqe::writev_ptr(fd, iovecs.addr, iovecs.value@.len() as u32, offset),
    {
        Sqe::writev_ptr(fd, iovecs.addr, iovecs.value.len() as u32, offset)
    }

    /// [`read`](Self::read) into `len` bytes at `buf`.
    #[verifier::allow_in_spec]
    pub fn read_ptr(fd: RawFd, buf: u64, len: u32, offset: u64) -> Self
        returns
            Sqe(
                IoUringSqe {
                    opcode: Opcode::Read.as_raw(),
                    fd: fd.as_i32(),
                    addr: buf,
                    len: len,
                    off: offset,
                    ..IoUringSqe::zeroed()
                },
            ),
    {
        Sqe(
            IoUringSqe {
                opcode: Opcode::Read.as_raw(),
                fd: fd.as_i32(),
                addr: buf,
                len: len,
                off: offset,
                ..IoUringSqe::zeroed()
            },
        )
    }

    /// [`write`](Self::write) with `len` bytes at `buf`.
    #[verifier::allow_in_spec]
    pub fn write_ptr(fd: RawFd, buf: u64, len: u32, offset: u64) -> Self
        returns
            Sqe(
                IoUringSqe {
                    opcode: Opcode::Write.as_raw(),
                    fd: fd.as_i32(),
                    addr: buf,
                    len: len,
                    off: offset,
                    ..IoUringSqe::zeroed()
                },
            ),
    {
        Sqe(
            IoUringSqe {
                opcode: Opcode::Write.as_raw(),
                fd: fd.as_i32(),
                addr: buf,
                len: len,
                off: offset,
                ..IoUringSqe::zeroed()
            },
        )
    }

    /// [`readv`](Self::readv) with `nr_vecs` descriptors at `iovecs`.
    #[verifier::allow_in_spec]
    pub fn readv_ptr(fd: RawFd, iovecs: u64, nr_vecs: u32, offset: u64) -> Self
        returns
            Sqe(
                IoUringSqe {
                    opcode: Opcode::Readv.as_raw(),
                    fd: fd.as_i32(),
                    addr: iovecs,
                    len: nr_vecs,
                    off: offset,
                    ..IoUringSqe::zeroed()
                },
            ),
    {
        Sqe(
            IoUringSqe {
                opcode: Opcode::Readv.as_raw(),
                fd: fd.as_i32(),
                addr: iovecs,
                len: nr_vecs,
                off: offset,
                ..IoUringSqe::zeroed()
            },
        )
    }

    /// [`writev`](Self::writev) with `nr_vecs` descriptors at `iovecs`.
    #[verifier::allow_in_spec]
    pub fn writev_ptr(fd: RawFd, iovecs: u64, nr_vecs: u32, offset: u64) -> Self
        returns
            Sqe(
                IoUringSqe {
                    opcode: Opcode::Writev.as_raw(),
                    fd: fd.as_i32(),
                    addr: iovecs,
                    len: nr_vecs,
                    off: offset,
                    ..IoUringSqe::zeroed()
                },
            ),
    {
        Sqe(
            IoUringSqe {
                opcode: Opcode::Writev.as_raw(),
                fd: fd.as_i32(),
                addr: iovecs,
                len: nr_vecs,
                off: offset,
                ..IoUringSqe::zeroed()
            },
        )
    }

    /// Read into `len` bytes at `buf`, inside the registered buffer
    /// `buf_index`.
    #[verifier::allow_in_spec]
    pub fn read_fixed(fd: RawFd, buf: u64, len: u32, offset: u64, buf_index: u16) -> Self
        returns
            Sqe(
                IoUringSqe {
                    opcode: Opcode::ReadFixed.as_raw(),
                    fd: fd.as_i32(),
                    addr: buf,
                    len: len,
                    off: offset,
                    buf_index: buf_index,
                    ..IoUringSqe::zeroed()
                },
            ),
    {
        Sqe(
            IoUringSqe {
                opcode: Opcode::ReadFixed.as_raw(),
                fd: fd.as_i32(),
                addr: buf,
                len: len,
                off: offset,
                buf_index: buf_index,
                ..IoUringSqe::zeroed()
            },
        )
    }

    /// Write `len` bytes at `buf`, inside the registered buffer `buf_index`.
    #[verifier::allow_in_spec]
    pub fn write_fixed(fd: RawFd, buf: u64, len: u32, offset: u64, buf_index: u16) -> Self
        returns
            Sqe(
                IoUringSqe {
                    opcode: Opcode::WriteFixed.as_raw(),
                    fd: fd.as_i32(),
                    addr: buf,
                    len: len,
                    off: offset,
                    buf_index: buf_index,
                    ..IoUringSqe::zeroed()
                },
            ),
    {
        Sqe(
            IoUringSqe {
                opcode: Opcode::WriteFixed.as_raw(),
                fd: fd.as_i32(),
                addr: buf,
                len: len,
                off: offset,
                buf_index: buf_index,
                ..IoUringSqe::zeroed()
            },
        )
    }

    /// Read until cancelled, one completion per arrival, into buffers of the
    /// pool `bgid`.
    #[verifier::allow_in_spec]
    pub fn read_multishot(fd: RawFd, offset: u64, bgid: u16) -> Self
        returns
            Sqe(IoUringSqe {
                opcode: Opcode::ReadMultishot.as_raw(),
                fd: fd.as_i32(),
                off: offset,
                ..IoUringSqe::zeroed()
            })
            .buffer_select(bgid),
    {
        Sqe(IoUringSqe {
            opcode: Opcode::ReadMultishot.as_raw(),
            fd: fd.as_i32(),
            off: offset,
            ..IoUringSqe::zeroed()
        })
            .buffer_select(bgid)
    }

    /// Open `path`, relative to `dfd`.
    #[verifier::allow_in_spec]
    pub fn openat<S: StableBuffer>(
        dfd: DirFd,
        path: &OwnedPath<S>,
        flags: OpenFlags,
        mode: FileMode,
    ) -> Self
        returns
            Sqe::openat_ptr(dfd.as_raw(), path.storage().addr() as u64, flags, mode),
    {
        Sqe::openat_ptr(dfd.as_raw(), path.stable_ptr() as u64, flags, mode)
    }

    /// [`openat`](Self::openat) with the path at address `path`.
    #[verifier::allow_in_spec]
    pub fn openat_ptr(dfd: i32, path: u64, flags: OpenFlags, mode: FileMode) -> Self
        returns
            Sqe(
                IoUringSqe {
                    opcode: Opcode::Openat.as_raw(),
                    fd: dfd,
                    addr: path,
                    len: mode.bits(),
                    op_flags: flags.word(),
                    ..IoUringSqe::zeroed()
                },
            ),
    {
        Sqe(
            IoUringSqe {
                opcode: Opcode::Openat.as_raw(),
                fd: dfd,
                addr: path,
                len: mode.bits(),
                op_flags: flags.bits(),
                ..IoUringSqe::zeroed()
            },
        )
    }

    /// Open into the encoded file-table slot `file_index`: one more than the
    /// slot, or -1 to let the kernel choose.
    #[verifier::allow_in_spec]
    pub fn openat_direct(
        dfd: i32,
        path: u64,
        flags: OpenFlags,
        mode: FileMode,
        file_index: i32,
    ) -> Self
        returns
            Sqe(
                IoUringSqe {
                    opcode: Opcode::Openat.as_raw(),
                    fd: dfd,
                    addr: path,
                    len: mode.bits(),
                    op_flags: flags.word(),
                    splice_fd_in: file_index,
                    ..IoUringSqe::zeroed()
                },
            ),
    {
        Sqe(
            IoUringSqe {
                opcode: Opcode::Openat.as_raw(),
                fd: dfd,
                addr: path,
                len: mode.bits(),
                op_flags: flags.bits(),
                splice_fd_in: file_index,
                ..IoUringSqe::zeroed()
            },
        )
    }

    /// Open `path` as `how` says.
    #[verifier::allow_in_spec]
    pub fn openat2<S: StableBuffer>(dfd: i32, path: &OwnedPath<S>, how: &Placed<OpenHow>) -> Self
        returns
            Sqe::openat2_ptr(dfd, path.storage().addr() as u64, how.addr, 24),
    {
        Sqe::openat2_ptr(dfd, path.stable_ptr() as u64, how.addr, 24)
    }

    /// [`openat2`](Self::openat2) with the path at `path` and `how_size`
    /// bytes of instructions at `how`.
    #[verifier::allow_in_spec]
    pub fn openat2_ptr(dfd: i32, path: u64, how: u64, how_size: u32) -> Self
        returns
            Sqe(
                IoUringSqe {
                    opcode: Opcode::Openat2.as_raw(),
                    fd: dfd,
                    addr: path,
                    off: how,
                    len: how_size,
                    ..IoUringSqe::zeroed()
                },
            ),
    {
        Sqe(
            IoUringSqe {
                opcode: Opcode::Openat2.as_raw(),
                fd: dfd,
                addr: path,
                off: how,
                len: how_size,
                ..IoUringSqe::zeroed()
            },
        )
    }

    /// Report about `path` to `statx_buf`.
    #[verifier::allow_in_spec]
    pub fn statx<S: StableBuffer>(
        dfd: DirFd,
        path: &OwnedPath<S>,
        flags: StatxFlags,
        mask: StatxMask,
        statx_buf: &Placed<Statx>,
    ) -> Self
        returns
            Sqe::statx_ptr(dfd.as_raw(), path.storage().addr() as u64, flags, mask, statx_buf.addr),
    {
        Sqe::statx_ptr(dfd.as_raw(), path.stable_ptr() as u64, flags, mask, statx_buf.addr)
    }

    /// [`statx`](Self::statx) with the path at `path` and room for the
    /// report at `statx_buf`.
    #[verifier::allow_in_spec]
    pub fn statx_ptr(
        dfd: i32,
        path: u64,
        flags: StatxFlags,
        mask: StatxMask,
        statx_buf: u64,
    ) -> Self
        returns
            Sqe(
                IoUringSqe {
                    opcode: Opcode::Statx.as_raw(),
                    fd: dfd,
                    off: statx_buf,
                    addr: path,
                    len: mask.bits(),
                    op_flags: flags.bits(),
                    ..IoUringSqe::zeroed()
                },
            ),
    {
        Sqe(
            IoUringSqe {
                opcode: Opcode::Statx.as_raw(),
                fd: dfd,
                off: statx_buf,
                addr: path,
                len: mask.bits(),
                op_flags: flags.bits(),
                ..IoUringSqe::zeroed()
            },
        )
    }

    /// Rename `old_path` to `new_path`.
    #[verifier::allow_in_spec]
    pub fn renameat<F: StableBuffer, T: StableBuffer>(
        old_dfd: DirFd,
        old_path: &OwnedPath<F>,
        new_dfd: DirFd,
        new_path: &OwnedPath<T>,
        flags: RenameFlags,
    ) -> Self
        returns
            Sqe::renameat_ptr(
                old_dfd.as_raw(),
                old_path.storage().addr() as u64,
                new_dfd.as_raw(),
                new_path.storage().addr() as u64,
                flags,
            ),
    {
        Sqe::renameat_ptr(
            old_dfd.as_raw(),
            old_path.stable_ptr() as u64,
            new_dfd.as_raw(),
            new_path.stable_ptr() as u64,
            flags,
        )
    }

    /// [`renameat`](Self::renameat) with the paths at `old_path` and
    /// `new_path`. The length field carries the second directory.
    #[verifier::allow_in_spec]
    pub fn renameat_ptr(
        old_dfd: i32,
        old_path: u64,
        new_dfd: i32,
        new_path: u64,
        flags: RenameFlags,
    ) -> Self
        returns
            Sqe(
                IoUringSqe {
                    opcode: Opcode::Renameat.as_raw(),
                    fd: old_dfd,
                    addr: old_path,
                    len: new_dfd as u32,
                    off: new_path,
                    op_flags: flags.bits(),
                    ..IoUringSqe::zeroed()
                },
            ),
    {
        Sqe(
            IoUringSqe {
                opcode: Opcode::Renameat.as_raw(),
                fd: old_dfd,
                addr: old_path,
                len: new_dfd as u32,
                off: new_path,
                op_flags: flags.bits(),
                ..IoUringSqe::zeroed()
            },
        )
    }

    /// Remove `path`.
    #[verifier::allow_in_spec]
    pub fn unlinkat<S: StableBuffer>(dfd: DirFd, path: &OwnedPath<S>, flags: UnlinkFlags) -> Self
        returns
            Sqe::unlinkat_ptr(dfd.as_raw(), path.storage().addr() as u64, flags),
    {
        Sqe::unlinkat_ptr(dfd.as_raw(), path.stable_ptr() as u64, flags)
    }

    /// [`unlinkat`](Self::unlinkat) with the path at `path`.
    #[verifier::allow_in_spec]
    pub fn unlinkat_ptr(dfd: i32, path: u64, flags: UnlinkFlags) -> Self
        returns
            Sqe(
                IoUringSqe {
                    opcode: Opcode::Unlinkat.as_raw(),
                    fd: dfd,
                    addr: path,
                    op_flags: flags.bits(),
                    ..IoUringSqe::zeroed()
                },
            ),
    {
        Sqe(
            IoUringSqe {
                opcode: Opcode::Unlinkat.as_raw(),
                fd: dfd,
                addr: path,
                op_flags: flags.bits(),
                ..IoUringSqe::zeroed()
            },
        )
    }

    /// Create the directory `path`.
    #[verifier::allow_in_spec]
    pub fn mkdirat<S: StableBuffer>(dfd: DirFd, path: &OwnedPath<S>, mode: FileMode) -> Self
        returns
            Sqe::mkdirat_ptr(dfd.as_raw(), path.storage().addr() as u64, mode),
    {
        Sqe::mkdirat_ptr(dfd.as_raw(), path.stable_ptr() as u64, mode)
    }

    /// [`mkdirat`](Self::mkdirat) with the path at `path`.
    #[verifier::allow_in_spec]
    pub fn mkdirat_ptr(dfd: i32, path: u64, mode: FileMode) -> Self
        returns
            Sqe(
                IoUringSqe {
                    opcode: Opcode::Mkdirat.as_raw(),
                    fd: dfd,
                    addr: path,
                    len: mode.bits(),
                    ..IoUringSqe::zeroed()
                },
            ),
    {
        Sqe(
            IoUringSqe {
                opcode: Opcode::Mkdirat.as_raw(),
                fd: dfd,
                addr: path,
                len: mode.bits(),
                ..IoUringSqe::zeroed()
            },
        )
    }

    /// Make the path at `link` a symbolic link to the path at `target`.
    #[verifier::allow_in_spec]
    pub fn symlinkat_ptr(target: u64, new_dfd: i32, link: u64) -> Self
        returns
            Sqe(
                IoUringSqe {
                    opcode: Opcode::Symlinkat.as_raw(),
                    fd: new_dfd,
                    addr: target,
                    off: link,
                    ..IoUringSqe::zeroed()
                },
            ),
    {
        Sqe(
            IoUringSqe {
                opcode: Opcode::Symlinkat.as_raw(),
                fd: new_dfd,
                addr: target,
                off: link,
                ..IoUringSqe::zeroed()
            },
        )
    }

    /// Make the path at `new_path` another name of the one at `old_path`.
    #[verifier::allow_in_spec]
    pub fn linkat_ptr(
        old_dfd: i32,
        old_path: u64,
        new_dfd: i32,
        new_path: u64,
        flags: LinkFlags,
    ) -> Self
        returns
            Sqe(
                IoUringSqe {
                    opcode: Opcode::Linkat.as_raw(),
                    fd: old_dfd,
                    addr: old_path,
                    len: new_dfd as u32,
                    off: new_path,
                    op_flags: flags.bits(),
                    ..IoUringSqe::zeroed()
                },
            ),
    {
        Sqe(
            IoUringSqe {
                opcode: Opcode::Linkat.as_raw(),
                fd: old_dfd,
                addr: old_path,
                len: new_dfd as u32,
                off: new_path,
                op_flags: flags.bits(),
                ..IoUringSqe::zeroed()
            },
        )
    }

    /// Announce how a range of a file will be used.
    #[verifier::allow_in_spec]
    pub fn fadvise(fd: RawFd, offset: u64, len: u32, advice: FadviseAdvice) -> Self
        returns
            Sqe(
                IoUringSqe {
                    opcode: Opcode::Fadvise.as_raw(),
                    fd: fd.as_i32(),
                    off: offset,
                    len: len,
                    op_flags: advice.as_raw(),
                    ..IoUringSqe::zeroed()
                },
            ),
    {
        Sqe(
            IoUringSqe {
                opcode: Opcode::Fadvise.as_raw(),
                fd: fd.as_i32(),
                off: offset,
                len: len,
                op_flags: advice.as_raw(),
                ..IoUringSqe::zeroed()
            },
        )
    }

    /// Announce how a range of memory will be used.
    #[verifier::allow_in_spec]
    pub fn madvise(addr: u64, len: u32, advice: MadviseAdvice) -> Self
        returns
            Sqe(
                IoUringSqe {
                    opcode: Opcode::Madvise.as_raw(),
                    addr: addr,
                    len: len,
                    op_flags: advice.as_raw(),
                    ..IoUringSqe::zeroed()
                },
            ),
    {
        Sqe(
            IoUringSqe {
                opcode: Opcode::Madvise.as_raw(),
                addr: addr,
                len: len,
                op_flags: advice.as_raw(),
                ..IoUringSqe::zeroed()
            },
        )
    }

    /// Move `len` bytes from `fd_in` to `fd_out`.
    #[verifier::allow_in_spec]
    pub fn splice(
        fd_out: RawFd,
        off_out: u64,
        fd_in: RawFd,
        off_in: u64,
        len: u32,
        flags: SpliceFlags,
    ) -> Self
        returns
            Sqe(
                IoUringSqe {
                    opcode: Opcode::Splice.as_raw(),
                    fd: fd_out.as_i32(),
                    off: off_out,
                    splice_fd_in: fd_in.as_i32(),
                    addr: off_in,
                    len: len,
                    op_flags: flags.bits(),
                    ..IoUringSqe::zeroed()
                },
            ),
    {
        Sqe(
            IoUringSqe {
                opcode: Opcode::Splice.as_raw(),
                fd: fd_out.as_i32(),
                off: off_out,
                splice_fd_in: fd_in.as_i32(),
                addr: off_in,
                len: len,
                op_flags: flags.bits(),
                ..IoUringSqe::zeroed()
            },
        )
    }

    /// Copy `len` bytes from one pipe to another.
    #[verifier::allow_in_spec]
    pub fn tee(fd_out: RawFd, fd_in: RawFd, len: u32, flags: SpliceFlags) -> Self
        returns
            Sqe(
                IoUringSqe {
                    opcode: Opcode::Tee.as_raw(),
                    fd: fd_out.as_i32(),
                    splice_fd_in: fd_in.as_i32(),
                    len: len,
                    op_flags: flags.bits(),
                    ..IoUringSqe::zeroed()
                },
            ),
    {
        Sqe(
            IoUringSqe {
                opcode: Opcode::Tee.as_raw(),
                fd: fd_out.as_i32(),
                splice_fd_in: fd_in.as_i32(),
                len: len,
                op_flags: flags.bits(),
                ..IoUringSqe::zeroed()
            },
        )
    }

    /// Create a pipe; its two descriptors go to `fds`.
    #[verifier::allow_in_spec]
    pub fn pipe_ptr(fds: u64, flags: PipeFlags) -> Self
        returns
            Sqe(
                IoUringSqe {
                    opcode: Opcode::Pipe.as_raw(),
                    addr: fds,
                    op_flags: flags.bits(),
                    ..IoUringSqe::zeroed()
                },
            ),
    {
        Sqe(
            IoUringSqe {
                opcode: Opcode::Pipe.as_raw(),
                addr: fds,
                op_flags: flags.bits(),
                ..IoUringSqe::zeroed()
            },
        )
    }

    /// Give the file-table entry `slot` a descriptor of its own.
    #[verifier::allow_in_spec]
    pub fn fixed_fd_install(slot: RawFd, flags: InstallFdFlags) -> Self
        returns
            Sqe(
                IoUringSqe {
                    opcode: Opcode::FixedFdInstall.as_raw(),
                    flags: SqeFlags::fixed_file().bits(),
                    fd: slot.as_i32(),
                    op_flags: flags.bits(),
                    ..IoUringSqe::zeroed()
                },
            ),
    {
        Sqe(
            IoUringSqe {
                opcode: Opcode::FixedFdInstall.as_raw(),
                flags: SqeFlags::fixed_file().bits(),
                fd: slot.as_i32(),
                op_flags: flags.bits(),
                ..IoUringSqe::zeroed()
            },
        )
    }
}

/// A transfer names its direction, the file, the memory and the place in the
/// file, and nothing else: reads are operations 22, 1 and 4, writes 23, 2 and
/// 5.
pub proof fn transfers_ask_for_their_direction(
    fd: RawFd,
    buf: u64,
    len: u32,
    offset: u64,
    index: u16,
)
    ensures
        Sqe::read_ptr(fd, buf, len, offset).0 == (IoUringSqe {
            opcode: 22,
            fd: fd.as_i32(),
            off: offset,
            addr: buf,
            len: len,
            ..blank()
        }),
        Sqe::write_ptr(fd, buf, len, offset).0 == (IoUringSqe {
            opcode: 23,
            fd: fd.as_i32(),
            off: offset,
            addr: buf,
            len: len,
            ..blank()
        }),
        Sqe::readv_ptr(fd, buf, len, offset).0 == (IoUringSqe {
            opcode: 1,
            fd: fd.as_i32(),
            off: offset,
            addr: buf,
            len: len,
            ..blank()
        }),
        Sqe::writev_ptr(fd, buf, len, offset).0 == (IoUringSqe {
            opcode: 2,
            fd: fd.as_i32(),
            off: offset,
            addr: buf,
            len: len,
            ..blank()
        }),
        Sqe::read_fixed(fd, buf, len, offset, index).0 == (IoUringSqe {
            opcode: 4,
            fd: fd.as_i32(),
            off: offset,
            addr: buf,
            len: len,
            buf_index: index,
            ..blank()
        }),
        Sqe::write_fixed(fd, buf, len, offset, index).0 == (IoUringSqe {
            opcode: 5,
            fd: fd.as_i32(),
            off: offset,
            addr: buf,
            len: len,
            buf_index: index,
            ..blank()
        }),
{
}

/// A multishot read, operation 49, names no memory: the kernel takes it from
/// the pool, which takes the selection flag, 32, and the pool's number.
pub proof fn multishot_reads_name_a_pool(fd: RawFd, offset: u64, bgid: u16)
    ensures
        Sqe::read_multishot(fd, offset, bgid).0 == (IoUringSqe {
            opcode: 49,
            flags: 32,
            fd: fd.as_i32(),
            off: offset,
            buf_index: bgid,
            ..blank()
        }),
{
    assert(0u8 | 32u8 == 32u8) by (bit_vector);
}

/// A transfer of an owned buffer covers exactly that buffer.
pub proof fn transfers_cover_their_buffer<B: StableBufferMut>(fd: RawFd, buf: B, offset: u64)
    requires
        buf.bytes().len() <= u32::MAX,
    ensures
        Sqe::read(fd, &buf, offset).0 == (IoUringSqe {
            opcode: 22,
            fd: fd.as_i32(),
            off: offset,
            addr: buf.addr() as u64,
            len: buf.bytes().len() as u32,
            ..blank()
        }),
        Sqe::write(fd, &buf, offset).0 == (IoUringSqe {
            opcode: 23,
            fd: fd.as_i32(),
            off: offset,
            addr: buf.addr() as u64,
            len: buf.bytes().len() as u32,
            ..blank()
        }),
{
}

/// A vectored transfer names the array of descriptors and how many there are.
pub proof fn vectored_transfers_cover_their_array(fd: RawFd, vecs: Placed<Vec<IoVec>>, offset: u64)
    requires
        vecs.value@.len() <= u32::MAX,
    ensures
        Sqe::readv(fd, &vecs, offset).0 == (IoUringSqe {
            opcode: 1,
            fd: fd.as_i32(),
            off: offset,
            addr: vecs.addr,
            len: vecs.value@.len() as u32,
            ..blank()
        }),
        Sqe::writev(fd, &vecs, offset).0 == (IoUringSqe {
            opcode: 2,
            fd: fd.as_i32(),
            off: offset,
            addr: vecs.addr,
            len: vecs.value@.len() as u32,
            ..blank()
        }),
{
}

/// Closing is operation 19, flushing 3 and reserving space 17. Flushing only
/// the data is flushing with flag 1. A length to reserve goes where others put
/// an address.
pub proof fn files_are_closed_flushed_and_extended(
    fd: RawFd,
    sync: FsyncFlags,
    mode: FallocateMode,
    offset: u64,
    len: u64,
)
    ensures
        Sqe::close(fd).0 == (IoUringSqe { opcode: 19, fd: fd.as_i32(), ..blank() }),
        Sqe::fsync(fd, sync).0 == (IoUringSqe {
            opcode: 3,
            fd: fd.as_i32(),
            op_flags: sync.0,
            ..blank()
        }),
        Sqe::fdatasync(fd).0 == (IoUringSqe { opcode: 3, fd: fd.as_i32(), op_flags: 1, ..blank() }),
        Sqe::fallocate(fd, mode, offset, len).0 == (IoUringSqe {
            opcode: 17,
            fd: fd.as_i32(),
            off: offset,
            addr: len,
            len: mode.0,
            ..blank()
        }),
{
}

/// Advice on a file is operation 24, on memory 25.
pub proof fn advice_names_its_range(
    fd: RawFd,
    at: u64,
    len: u32,
    file: FadviseAdvice,
    memory: MadviseAdvice,
)
    ensures
        Sqe::fadvise(fd, at, len, file).0 == (IoUringSqe {
            opcode: 24,
            fd: fd.as_i32(),
            off: at,
            len: len,
            op_flags: file.as_raw(),
            ..blank()
        }),
        Sqe::madvise(at, len, memory).0 == (IoUringSqe {
            opcode: 25,
            addr: at,
            len: len,
            op_flags: memory.as_raw(),
            ..blank()
        }),
{
}

/// Opening is operation 18: the flags are the operation's, the permissions its
/// length. Into a slot it also names the slot. Operation 28 finds both in the
/// structure it points to instead.
pub proof fn opens_say_how(
    dfd: i32,
    path: u64,
    flags: OpenFlags,
    mode: FileMode,
    slot: i32,
    how: u64,
    size: u32,
)
    ensures
        Sqe::openat_ptr(dfd, path, flags, mode).0 == (IoUringSqe {
            opcode: 18,
            fd: dfd,
            addr: path,
            len: mode.0,
            op_flags: flags.word(),
            ..blank()
        }),
        Sqe::openat_direct(dfd, path, flags, mode, slot).0 == (IoUringSqe {
            opcode: 18,
            fd: dfd,
            addr: path,
            len: mode.0,
            op_flags: flags.word(),
            splice_fd_in: slot,
            ..blank()
        }),
        Sqe::openat2_ptr(dfd, path, how, size).0 == (IoUringSqe {
            opcode: 28,
            fd: dfd,
            off: how,
            addr: path,
            len: size,
            ..blank()
        }),
{
}

/// A report, operation 21, names the path, what is wanted and where it goes.
pub proof fn reports_go_to_their_destination(
    dfd: i32,
    path: u64,
    flags: StatxFlags,
    mask: StatxMask,
    dest: u64,
)
    ensures
        Sqe::statx_ptr(dfd, path, flags, mask, dest).0 == (IoUringSqe {
            opcode: 21,
            fd: dfd,
            off: dest,
            addr: path,
            len: mask.0,
            op_flags: flags.0,
            ..blank()
        }),
{
}

/// Renaming is operation 35 and linking 39: both name the existing path first
/// and the new one second, each with its directory. A symbolic link, 38, has
/// one directory, that of the link.
pub proof fn two_paths_keep_their_roles(
    from_dfd: i32,
    from: u64,
    to_dfd: i32,
    to: u64,
    rename: RenameFlags,
    link: LinkFlags,
)
    ensures
        Sqe::renameat_ptr(from_dfd, from, to_dfd, to, rename).0 == (IoUringSqe {
            opcode: 35,
            fd: from_dfd,
            off: to,
            addr: from,
            len: to_dfd as u32,
            op_flags: rename.0,
            ..blank()
        }),
        Sqe::linkat_ptr(from_dfd, from, to_dfd, to, link).0 == (IoUringSqe {
            opcode: 39,
            fd: from_dfd,
            off: to,
            addr: from,
            len: to_dfd as u32,
            op_flags: link.0,
            ..blank()
        }),
        Sqe::symlinkat_ptr(from, to_dfd, to).0 == (IoUringSqe {
            opcode: 38,
            fd: to_dfd,
            off: to,
            addr: from,
            ..blank()
        }),
{
}

/// Removing a name is operation 36, creating a directory 37.
pub proof fn names_are_removed_and_directories_made(
    dfd: i32,
    path: u64,
    flags: UnlinkFlags,
    mode: FileMode,
)
    ensures
        Sqe::unlinkat_ptr(dfd, path, flags).0 == (IoUringSqe {
            opcode: 36,
            fd: dfd,
            addr: path,
            op_flags: flags.0,
            ..blank()
        }),
        Sqe::mkdirat_ptr(dfd, path, mode).0 == (IoUringSqe {
            opcode: 37,
            fd: dfd,
            addr: path,
            len: mode.0,
            ..blank()
        }),
{
}

/// An owned path stands for the address it is stored at, and a directory for
/// its number.
pub proof fn owned_paths_stand_for_their_address<S: StableBuffer, T: StableBuffer>(
    dfd: DirFd,
    path: OwnedPath<S>,
    other_dfd: DirFd,
    other: OwnedPath<T>,
    flags: OpenFlags,
    mode: FileMode,
    how: Placed<OpenHow>,
    wanted: StatxFlags,
    mask: StatxMask,
    report: Placed<Statx>,
    rename: RenameFlags,
    unlink: UnlinkFlags,
)
    ensures
        Sqe::openat(dfd, &path, flags, mode).0 == (IoUringSqe {
            opcode: 18,
            fd: dfd.as_raw(),
            addr: path.storage().addr() as u64,
            len: mode.0,
            op_flags: flags.word(),
            ..blank()
        }),
        Sqe::openat2(dfd.as_raw(), &path, &how).0 == (IoUringSqe {
            opcode: 28,
            fd: dfd.as_raw(),
            off: how.addr,
            addr: path.storage().addr() as u64,
            len: 24,
            ..blank()
        }),
        Sqe::statx(dfd, &path, wanted, mask, &report).0 == (IoUringSqe {
            opcode: 21,
            fd: dfd.as_raw(),
            off: report.addr,
            addr: path.storage().addr() as u64,
            len: mask.0,
            op_flags: wanted.0,
            ..blank()
        }),
        Sqe::renameat(dfd, &path, other_dfd, &other, rename).0 == (IoUringSqe {
            opcode: 35,
            fd: dfd.as_raw(),
            off: other.storage().addr() as u64,
            addr: path.storage().addr() as u64,
            len: other_dfd.as_raw() as u32,
            op_flags: rename.0,
            ..blank()
        }),
        Sqe::unlinkat(dfd, &path, unlink).0 == (IoUringSqe {
            opcode: 36,
            fd: dfd.as_raw(),
            addr: path.storage().addr() as u64,
            op_flags: unlink.0,
            ..blank()
        }),
        Sqe::mkdirat(dfd, &path, mode).0 == (IoUringSqe {
            opcode: 37,
            fd: dfd.as_raw(),
            addr: path.storage().addr() as u64,
            len: mode.0,
            ..blank()
        }),
{
}

/// Splicing is operation 30 and duplicating 33: the entry's descriptor is
/// written to, the source stands apart.
pub proof fn bytes_flow_from_source_to_target(
    to: RawFd,
    to_at: u64,
    from: RawFd,
    from_at: u64,
    len: u32,
    flags: SpliceFlags,
)
    ensures
        Sqe::splice(to, to_at, from, from_at, len, flags).0 == (IoUringSqe {
            opcode: 30,
            fd: to.as_i32(),
            off: to_at,
            addr: from_at,
            len: len,
            op_flags: flags.0,
            splice_fd_in: from.as_i32(),
            ..blank()
        }),
        Sqe::tee(to, from, len, flags).0 == (IoUringSqe {
            opcode: 33,
            fd: to.as_i32(),
            len: len,
            op_flags: flags.0,
            splice_fd_in: from.as_i32(),
            ..blank()
        }),
{
}

/// A pipe, operation 62, names where its ends go. Installing a slot as a
/// descriptor is operation 54, on a fixed file, which takes flag 1.
pub proof fn pipes_and_installs_name_their_place(
    dest: u64,
    pipe: PipeFlags,
    slot: RawFd,
    install: InstallFdFlags,
)
    ensures
        Sqe::pipe_ptr(dest, pipe).0 == (IoUringSqe {
            opcode: 62,
            addr: dest,
            op_flags: pipe.0,
            ..blank()
        }),
        Sqe::fixed_fd_install(slot, install).0 == (IoUringSqe {
            opcode: 54,
            flags: 1,
            fd: slot.as_i32(),
            op_flags: install.0,
            ..blank()
        }),
{
}

} // verus!
