use vstd::prelude::*;

verus! {

/// The numeric constants of the C library that the routing rules use, as the
/// build target defines them: `open(2)` flag bits, the `errno` codes that the
/// layer reports, and the protection and mapping bits of `mmap(2)`.
#[derive(Clone, Copy, Debug, PartialEq, Eq, Structural)]
pub struct SysConsts {
    pub o_rdonly: i32,
    pub o_nonblock: i32,
    pub o_cloexec: i32,
    pub o_noatime: i32,
    pub o_directory: i32,
    pub enoent: i32,
    pub erofs: i32,
    pub ebadf: i32,
    pub erange: i32,
    pub prot_read: i32,
    pub prot_write: i32,
    pub map_anonymous: i32,
    pub map_private: i32,
}

impl SysConsts {
    /// The open flag bits that modify a read-only open (`O_NONBLOCK`,
    /// `O_CLOEXEC`, `O_NOATIME`, `O_DIRECTORY`) are each non-zero, share no
    /// bit with one another, and share no bit with the access mode
    /// `O_RDONLY`.
    pub open spec fn open_flags_separate(self) -> bool {
        &&& self.o_nonblock != 0
        &&& self.o_cloexec != 0
        &&& self.o_noatime != 0
        &&& self.o_directory != 0
        &&& self.o_nonblock & self.o_rdonly == 0
        &&& self.o_cloexec & self.o_rdonly == 0
        &&& self.o_noatime & self.o_rdonly == 0
        &&& self.o_directory & self.o_rdonly == 0
        &&& self.o_nonblock & self.o_cloexec == 0
        &&& self.o_nonblock & self.o_noatime == 0
        &&& self.o_nonblock & self.o_directory == 0
        &&& self.o_cloexec & self.o_noatime == 0
        &&& self.o_cloexec & self.o_directory == 0
        &&& self.o_noatime & self.o_directory == 0
    }

    /// The `errno` codes `ENOENT`, `EROFS`, `EBADF` and `ERANGE` are pairwise
    /// distinct.
    pub open spec fn errnos_distinct(self) -> bool {
        &&& self.enoent != self.erofs
        &&& self.enoent != self.ebadf
        &&& self.enoent != self.erange
        &&& self.erofs != self.ebadf
        &&& self.erofs != self.erange
        &&& self.ebadf != self.erange
    }
}

/// Reads the constants `O_RDONLY`, `O_NONBLOCK`, `O_CLOEXEC`, `O_NOATIME`,
/// `O_DIRECTORY`, `ENOENT`, `EROFS`, `EBADF`, `ERANGE`, `PROT_READ`,
/// `PROT_WRITE`, `MAP_ANONYMOUS` and `MAP_PRIVATE` of the `libc` crate.
/// `libc` defines their values per target and they differ between targets,
/// so no value is claimed. What is claimed holds on every target on which all
/// of them are defined as `c_int` (Linux with glibc, musl or uClibc, L4Re,
/// Android, Emscripten, Fuchsia, Hurd, Cygwin, NuttX): the four modifying
/// open flags are non-zero and share no bit with one another or with
/// `O_RDONLY` (which is 0 on all of these but Hurd, where it is 1), and the
/// four `errno` codes differ. Nothing is claimed of the `mmap` bits.
#[verifier::external_body]
fn read_libc_constants() -> (consts: SysConsts)
    ensures
        consts.open_flags_separate(),
        consts.errnos_distinct(),
{
    SysConsts {
        o_rdonly: libc::O_RDONLY,
        o_nonblock: libc::O_NONBLOCK,
        o_cloexec: libc::O_CLOEXEC,
        o_noatime: libc::O_NOATIME,
        o_directory: libc::O_DIRECTORY,
        enoent: libc::ENOENT,
        erofs: libc::EROFS,
        ebadf: libc::EBADF,
        erange: libc::ERANGE,
        prot_read: libc::PROT_READ,
        prot_write: libc::PROT_WRITE,
        map_anonymous: libc::MAP_ANONYMOUS,
        map_private: libc::MAP_PRIVATE,
    }
}

impl SysConsts {
    /// The constants of the target this library was built for, as `libc`
    /// defines them: the modifying open flags are separate bits outside
    /// `O_RDONLY`, and the reported `errno` codes are distinct.
    pub fn host() -> (consts: SysConsts)
        ensures
            consts.open_flags_separate(),
            consts.errnos_distinct(),
    {
        read_libc_constants()
    }
}

} // verus!
