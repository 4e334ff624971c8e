//! The assembled filesystem state: its backing, the exposed directories and
//! the three standard descriptors.
use vstd::prelude::*;
use crate::error::FsError;
use crate::preopen::{copy_dirs, dirs_view, PreopenedDir, PreopenedDirView};
use crate::text::copy_strings;

verus! {

/// A cap on the memory that an in-memory filesystem may hold.
#[derive(Debug, Clone, Copy, PartialEq, Eq, Structural)]
pub struct MemoryLimiter {
    pub max_bytes: u64,
}

/// An isolated in-memory filesystem.
#[derive(Debug, Clone, Copy, PartialEq, Eq, Structural)]
pub struct TmpFileSystem {
    pub memory_limiter: Option<MemoryLimiter>,
}

impl TmpFileSystem {
    /// A fresh, empty filesystem with no memory limit.
    pub fn new() -> (r: Self)
        ensures
            r.memory_limiter is None,
    {
        TmpFileSystem { memory_limiter: None }
    }

    /// Caps the memory that this filesystem may hold.
    pub fn set_memory_limiter(&mut self, limiter: MemoryLimiter)
        ensures
            final(self).memory_limiter == Some(limiter),
    {
        self.memory_limiter = Some(limiter);
    }
}

/// A filesystem supplied by the embedder, known here by its handle.
#[derive(Debug, Clone, Copy, PartialEq, Eq, Structural)]
pub struct BackingFs {
    pub id: u64,
}

/// The storage behind the guest's filesystem view: exactly one of the two.
#[derive(Debug, Clone, Copy, PartialEq, Eq, Structural)]
pub enum WasiFsRoot {
    Sandbox(TmpFileSystem),
    Backing(BackingFs),
}

/// A file object that can sit in a descriptor slot.
#[derive(Debug, Clone, Copy, PartialEq, Eq, Structural)]
pub enum VirtualFile {
    /// The console input that a guest reads when nothing else was given.
    ConsoleStdin,
    /// The filesystem's own standard output.
    ConsoleStdout,
    /// The filesystem's own standard error.
    ConsoleStderr,
    /// A file object of the embedder, known here by its handle.
    Host(u64),
}

pub const STDIN_FILENO: u32 = 0;
pub const STDOUT_FILENO: u32 = 1;
pub const STDERR_FILENO: u32 = 2;

/// Every pair of directories is seen by the guest under distinct names.
pub open spec fn guest_names_distinct(p: Seq<PreopenedDirView>) -> bool {
    forall|i: int, j: int|
        0 <= i < j < p.len() ==> p[i].guest_name() != p[j].guest_name()
}

pub open spec fn clash_message(name: Seq<char>) -> Seq<char> {
    "two preopened directories share the guest name \""@ + name + "\""@
}

/// The filesystem state that the guest runs against.
#[derive(Debug)]
pub struct WasiFs {
    pub root: WasiFsRoot,
    pub preopens: Vec<PreopenedDir>,
    pub vfs_preopens: Vec<String>,
    pub stdin: VirtualFile,
    pub stdout: VirtualFile,
    pub stderr: VirtualFile,
}

impl WasiFs {
    /// The exposed directories, as views.
    pub open spec fn preopens_view(&self) -> Seq<PreopenedDirView> {
        dirs_view(self.preopens@)
    }

    /// Assembles the filesystem state from the exposed directories, the
    /// virtual directories and the backing. It fails when two directories
    /// would be seen by the guest under one name.
    pub fn new_with_preopen(
        preopens: &Vec<PreopenedDir>,
        vfs_preopens: &Vec<String>,
        root: WasiFsRoot,
    ) -> (r: Result<WasiFs, String>)
        ensures
            r is Ok <==> guest_names_distinct(dirs_view(preopens@)),
            r matches Ok(fs) ==> {
                &&& fs.root == root
                &&& fs.preopens_view() == dirs_view(preopens@)
                &&& fs.vfs_preopens@ == vfs_preopens@
                &&& fs.stdin == VirtualFile::ConsoleStdin
                &&& fs.stdout == VirtualFile::ConsoleStdout
                &&& fs.stderr == VirtualFile::ConsoleStderr
            },
            r matches Err(m) ==> exists|i: int, j: int|
                0 <= i < j < preopens@.len() && dirs_view(preopens@)[i].guest_name()
                    == dirs_view(preopens@)[j].guest_name() && m@ == clash_message(
                    dirs_view(preopens@)[i].guest_name(),
                ),
    {
        let ghost pv = dirs_view(preopens@);
        let mut j: usize = 0;
        while j < preopens.len()
            invariant
                0 <= j <= preopens@.len(),
                pv == dirs_view(preopens@),
                forall|a: int, b: int| 0 <= a < b < j ==> pv[a].guest_name() != pv[b].guest_name(),
            decreases preopens@.len() - j,
        {
            let name_j = guest_name_of(&preopens[j]);
            assert(name_j@ == pv[j as int].guest_name());
            let mut i: usize = 0;
            while i < j
                invariant
                    0 <= i <= j < preopens@.len(),
                    pv == dirs_view(preopens@),
                    name_j@ == pv[j as int].guest_name(),
                    forall|a: int| 0 <= a < i ==> pv[a].guest_name() != pv[j as int].guest_name(),
                decreases j - i,
            {
                let name_i = guest_name_of(&preopens[i]);
                assert(name_i@ == pv[i as int].guest_name());
                if name_i == name_j {
                    assert(pv[i as int].guest_name() == pv[j as int].guest_name());
                    assert(!guest_names_distinct(pv));
                    let mut msg = String::from_str("two preopened directories share the guest name \"");
                    msg.append(name_i.as_str());
                    msg.append("\"");
                    return Err(msg);
                }
                i = i + 1;
            }
            j = j + 1;
        }
        Ok(
            WasiFs {
                root,
                preopens: copy_dirs(preopens),
                vfs_preopens: copy_strings(vfs_preopens),
                stdin: VirtualFile::ConsoleStdin,
                stdout: VirtualFile::ConsoleStdout,
                stderr: VirtualFile::ConsoleStderr,
            },
        )
    }

    /// Puts `file` in the standard descriptor `fd` and hands back the file
    /// that was there. Only the three standard descriptors can be swapped.
    pub fn swap_file(&mut self, fd: u32, file: VirtualFile) -> (r: Result<
        VirtualFile,
        FsError,
    >)
        ensures
            fd > 2 <==> r is Err,
            r matches Err(e) ==> e == FsError::InvalidFd && *final(self) == *old(self),
            fd == STDIN_FILENO ==> r == Ok::<VirtualFile, FsError>(old(self).stdin)
                && *final(self) == (WasiFs { stdin: file, ..*old(self) }),
            fd == STDOUT_FILENO ==> r == Ok::<VirtualFile, FsError>(old(self).stdout)
                && *final(self) == (WasiFs { stdout: file, ..*old(self) }),
            fd == STDERR_FILENO ==> r == Ok::<VirtualFile, FsError>(old(self).stderr)
                && *final(self) == (WasiFs { stderr: file, ..*old(self) }),
    {
        if fd == STDIN_FILENO {
            let old_file = self.stdin;
            self.stdin = file;
            Ok(old_file)
        } else if fd == STDOUT_FILENO {
            let old_file = self.stdout;
            self.stdout = file;
            Ok(old_file)
        } else if fd == STDERR_FILENO {
            let old_file = self.stderr;
            self.stderr = file;
            Ok(old_file)
        } else {
            Err(FsError::InvalidFd)
        }
    }

    /// Caps the memory of the backing. Only an in-memory sandbox has such a
    /// cap: on an embedder's filesystem the request is refused.
    pub fn set_memory_limiter(&mut self, limiter: MemoryLimiter) -> (r: Result<(), FsError>)
        ensures
            r is Ok <==> old(self).root is Sandbox,
            r is Ok ==> final(self).root == WasiFsRoot::Sandbox(
                TmpFileSystem { memory_limiter: Some(limiter) },
            ),
            r is Err ==> r == Err::<(), FsError>(FsError::BadRequest) && *final(self) == *old(self),
            final(self).preopens == old(self).preopens,
            final(self).vfs_preopens == old(self).vfs_preopens,
            final(self).stdin == old(self).stdin,
            final(self).stdout == old(self).stdout,
            final(self).stderr == old(self).stderr,
    {
        match &mut self.root {
            WasiFsRoot::Sandbox(tmp) => {
                tmp.set_memory_limiter(limiter);
                Ok(())
            },
            WasiFsRoot::Backing(_) => Err(FsError::BadRequest),
        }
    }
}

/// The name under which the guest sees `d`.
fn guest_name_of(d: &PreopenedDir) -> (r: String)
    ensures
        r@ == d@.guest_name(),
{
    match &d.alias {
        Some(a) => a.clone(),
        None => d.path.clone(),
    }
}

} // verus!
