use crate::context::mode_of;
use crate::sys::SysConsts;
use std::collections::HashMap;
use vstd::prelude::*;

verus! {

/// An intercepted call, with the arguments that the routing rules look at.
#[derive(Clone, Copy, Debug, PartialEq, Eq, Structural)]
pub enum Call {
    /// `open(path, oflag, mode)`.
    Open { oflag: i32 },
    /// `openat(dirfd, path, flags, mode)`.
    OpenAt { flags: i32 },
    /// `mmap(addr, length, prot, flags, fd, offset)`. Served virtually by an
    /// anonymous mapping (see `anonymous_mapping`) that the virtual file
    /// system then fills; when that mapping itself fails, its failure is
    /// returned as is and the virtual file system is not asked.
    Mmap { fd: i32 },
    /// `read(fd, buf, count)`.
    Read,
    /// `stat(path, buf)`.
    Stat,
    /// `lstat(path, buf)`; served like `stat`.
    Lstat,
    /// `fstat(fd, buf)`.
    Fstat,
    /// `close(fd)`. Served virtually by releasing the descriptor in the
    /// virtual file system, whose answer is not looked at; the descriptor is
    /// then closed natively as well in either mode.
    Close,
    /// `getcwd(buf, size)`.
    Getcwd,
    /// `fdopendir(fd)`.
    Fdopendir,
    /// `readdir(dirp)`.
    Readdir,
    /// `closedir(dirp)`. Served virtually: the virtual file system answers
    /// with the inner descriptor of the stream, which is closed natively, and
    /// the call returns 0.
    Closedir,
    /// `chdir(path)`. Served virtually: the call returns 0 when the virtual
    /// file system accepts the directory.
    Chdir,
}

/// Where an intercepted call goes.
#[derive(Clone, Copy, Debug, PartialEq, Eq, Structural)]
pub enum Route {
    /// To the native C library, with the caller's arguments unchanged.
    Native,
    /// To the virtual file system.
    Virtual,
    /// Nowhere: the call fails at once with this `errno`.
    Refused { errno: i32 },
}

/// What the caller of a call served by the virtual file system sees.
#[derive(Debug, PartialEq, Eq, Structural)]
pub enum Reply<T> {
    /// The call succeeds with what the virtual file system answered.
    Value(T),
    /// The call returns its failure value (-1, a null pointer, or
    /// `MAP_FAILED` for `mmap`), after setting `errno` when this holds a code.
    Failure { errno: Option<i32> },
}

/// The `mmap(2)` request that backs a virtually served mapping.
#[derive(Clone, Copy, Debug, PartialEq, Eq, Structural)]
pub struct MapRequest {
    pub prot: i32,
    pub flags: i32,
    pub fd: i32,
}

/// The open flags that the virtual file system serves: read-only opens,
/// optionally non-blocking, close-on-exec or without access-time update.
pub open spec fn read_only_open(c: SysConsts, oflag: i32) -> bool {
    ||| oflag == c.o_rdonly | c.o_nonblock | c.o_cloexec
    ||| oflag == c.o_rdonly | c.o_nonblock
    ||| oflag == c.o_rdonly | c.o_cloexec
    ||| oflag == c.o_rdonly | c.o_noatime
}

/// The `openat` flags that the virtual file system serves: opening a
/// directory read-only and close-on-exec.
pub open spec fn read_only_openat(c: SysConsts, flags: i32) -> bool {
    flags == c.o_rdonly | c.o_cloexec | c.o_directory
}

/// Where `call` goes when the calling thread runs in virtual mode or not.
/// Mappings of no descriptor (`fd == -1`) are always native; every other call
/// of a thread outside virtual mode is native; in virtual mode, opens with
/// flags that the read-only file system does not serve are refused with
/// `EROFS`, and all other calls are virtual.
pub open spec fn route_of(c: SysConsts, virtual_mode: bool, call: Call) -> Route {
    match call {
        Call::Mmap { fd } if fd == -1 => Route::Native,
        _ => if !virtual_mode {
            Route::Native
        } else {
            match call {
                Call::Open { oflag } => if read_only_open(c, oflag) {
                    Route::Virtual
                } else {
                    Route::Refused { errno: c.erofs }
                },
                Call::OpenAt { flags } => if read_only_openat(c, flags) {
                    Route::Virtual
                } else {
                    Route::Refused { errno: c.erofs }
                },
                _ => Route::Virtual,
            }
        },
    }
}

/// The `errno` that a virtually served call reports when the virtual file
/// system has no answer: `ENOENT` for a path that is not there, `ERANGE` for a
/// working directory that does not fit the buffer, `EBADF` for a descriptor
/// or stream it does not know; `fstat` and `close` set none.
pub open spec fn miss_errno(c: SysConsts, call: Call) -> Option<i32> {
    match call {
        Call::Open { .. } | Call::OpenAt { .. } | Call::Chdir => Some(c.enoent),
        Call::Getcwd => Some(c.erange),
        Call::Fstat | Call::Close => None,
        _ => Some(c.ebadf),
    }
}

/// The reply to a virtually served `call` whose virtual file-system answer
/// is `answer`.
pub open spec fn reply_of<T>(c: SysConsts, call: Call, answer: Option<T>) -> Reply<T> {
    match answer {
        Some(v) => Reply::Value(v),
        None => Reply::Failure { errno: miss_errno(c, call) },
    }
}

/// Decides where `call` goes, given whether the calling thread runs in
/// virtual mode.
pub fn route(c: &SysConsts, virtual_mode: bool, call: Call) -> (r: Route)
    ensures
        r == route_of(*c, virtual_mode, call),
{
    if let Call::Mmap { fd } = call {
        if fd == -1 {
            return Route::Native;
        }
    }
    if !virtual_mode {
        return Route::Native;
    }
    match call {
        Call::Open { oflag } => {
            if oflag == c.o_rdonly | c.o_nonblock | c.o_cloexec
                || oflag == c.o_rdonly | c.o_nonblock
                || oflag == c.o_rdonly | c.o_cloexec
                || oflag == c.o_rdonly | c.o_noatime
            {
                Route::Virtual
            } else {
                Route::Refused { errno: c.erofs }
            }
        },
        Call::OpenAt { flags } => {
            if flags == c.o_rdonly | c.o_cloexec | c.o_directory {
                Route::Virtual
            } else {
                Route::Refused { errno: c.erofs }
            }
        },
        _ => Route::Virtual,
    }
}

/// Where `call` made by `thread` goes, given the table of thread modes.
/// A mapping of no descriptor is decided before the table is read, so it is
/// native even for a thread that the table does not know; any other call of
/// an unknown thread gets `None`.
pub open spec fn thread_route_of(
    c: SysConsts,
    modes: Map<u64, bool>,
    thread: u64,
    call: Call,
) -> Option<Route> {
    if call matches Call::Mmap { fd } && fd == -1 {
        Some(Route::Native)
    } else if modes.contains_key(thread) {
        Some(route_of(c, modes[thread], call))
    } else {
        None
    }
}

/// Where `call` goes when that is decided before the table of thread modes is
/// read: a mapping of no descriptor is native; for every other call the table
/// is needed (`None`).
pub fn route_without_table(call: Call) -> (r: Option<Route>)
    ensures
        r == (if call matches Call::Mmap { fd } && fd == -1 {
            Some(Route::Native)
        } else {
            None::<Route>
        }),
{
    if let Call::Mmap { fd } = call {
        if fd == -1 {
            return Some(Route::Native);
        }
    }
    None
}

/// Decides where `call` made by `thread` goes: reads the thread's mode from
/// `modes` where the rules need it, then applies `route`.
pub fn route_for_thread(
    c: &SysConsts,
    modes: &HashMap<u64, bool>,
    thread: u64,
    call: Call,
) -> (r: Option<Route>)
    ensures
        r == thread_route_of(*c, modes@, thread, call),
{
    if let Some(r) = route_without_table(call) {
        return Some(r);
    }
    match mode_of(modes, thread) {
        Some(virtual_mode) => Some(route(c, virtual_mode, call)),
        None => None,
    }
}

/// The `errno` that a virtually served `call` reports when the virtual file
/// system has no answer.
fn miss_errno_of(c: &SysConsts, call: Call) -> (e: Option<i32>)
    ensures
        e == miss_errno(*c, call),
{
    match call {
        Call::Open { .. } | Call::OpenAt { .. } | Call::Chdir => Some(c.enoent),
        Call::Getcwd => Some(c.erange),
        Call::Fstat | Call::Close => None,
        _ => Some(c.ebadf),
    }
}

/// Turns the virtual file system's answer to a virtually served `call` into
/// what the caller sees.
pub fn settle<T>(c: &SysConsts, call: Call, answer: Option<T>) -> (r: Reply<T>)
    ensures
        r == reply_of(*c, call, answer),
{
    match answer {
        Some(v) => Reply::Value(v),
        None => Reply::Failure { errno: miss_errno_of(c, call) },
    }
}

/// The request for the private anonymous mapping, readable and writable,
/// that a virtually served `mmap` fills from the virtual file system in place
/// of mapping the descriptor.
pub fn anonymous_mapping(c: &SysConsts) -> (m: MapRequest)
    ensures
        m.prot == c.prot_read | c.prot_write,
        m.flags == c.map_anonymous | c.map_private,
        m.fd == -1,
{
    MapRequest { prot: c.prot_read | c.prot_write, flags: c.map_anonymous | c.map_private, fd: -1 }
}

/// What a virtually served `mmap` does once the anonymous mapping has been
/// requested.
#[derive(Clone, Copy, Debug, PartialEq, Eq, Structural)]
pub enum MmapNext {
    /// The mapping failed: return that failure as is, without asking the
    /// virtual file system.
    ReturnMapping,
    /// The mapping exists: have the virtual file system fill it, then `settle`.
    Fill,
}

/// The step after the anonymous mapping of a virtually served `mmap`.
pub fn after_anonymous_mapping(mapping_failed: bool) -> (next: MmapNext)
    ensures
        next == (if mapping_failed {
            MmapNext::ReturnMapping
        } else {
            MmapNext::Fill
        }),
{
    if mapping_failed {
        MmapNext::ReturnMapping
    } else {
        MmapNext::Fill
    }
}

/// The status that a call reporting only success or failure (`chdir`,
/// `closedir`) returns for `reply`: 0 on success, -1 on failure. A virtually
/// served `closedir` closes the inner descriptor of a `Value` natively before
/// it returns.
pub fn status_of<T>(reply: &Reply<T>) -> (status: i32)
    ensures
        status == (if reply is Value { 0i32 } else { -1i32 }),
{
    match reply {
        Reply::Value(_) => 0,
        Reply::Failure { .. } => -1,
    }
}

/// A thread that does not run in virtual mode reaches the native C library
/// with every intercepted call.
pub proof fn lemma_native_mode_forwards_everything(c: SysConsts, call: Call)
    ensures
        route_of(c, false, call) == Route::Native,
{
}

/// A mapping of no descriptor (`fd == -1`) reaches the native C library in
/// either mode, and for any thread, known to the table of modes or not.
pub proof fn lemma_anonymous_mmap_is_native(
    c: SysConsts,
    virtual_mode: bool,
    modes: Map<u64, bool>,
    thread: u64,
)
    ensures
        route_of(c, virtual_mode, Call::Mmap { fd: -1i32 }) == Route::Native,
        thread_route_of(c, modes, thread, Call::Mmap { fd: -1i32 }) == Some(Route::Native),
{
}

/// A thread that the table of modes knows and that does not run in virtual
/// mode reaches the native C library with every intercepted call.
pub proof fn lemma_known_native_thread_forwards_everything(
    c: SysConsts,
    modes: Map<u64, bool>,
    thread: u64,
    call: Call,
)
    requires
        modes.contains_key(thread),
        !modes[thread],
    ensures
        thread_route_of(c, modes, thread, call) == Some(Route::Native),
{
}

/// The virtual file system is read-only: a call is refused only when a thread
/// in virtual mode opens with flags that it does not serve (the refusal
/// always carries `EROFS`: see `lemma_reported_errnos`); a read-only open in
/// virtual mode always reaches it.
pub proof fn lemma_only_writable_opens_are_refused(c: SysConsts, virtual_mode: bool, call: Call)
    ensures
        route_of(c, virtual_mode, call) is Refused <==> {
            &&& virtual_mode
            &&& match call {
                Call::Open { oflag } => !read_only_open(c, oflag),
                Call::OpenAt { flags } => !read_only_openat(c, flags),
                _ => false,
            }
        },
        virtual_mode && (call matches Call::Open { oflag } && read_only_open(c, oflag))
            ==> route_of(c, virtual_mode, call) == Route::Virtual,
        virtual_mode && (call matches Call::OpenAt { flags } && read_only_openat(c, flags))
            ==> route_of(c, virtual_mode, call) == Route::Virtual,
{
}

/// Every `errno` that the layer itself reports, on a refusal or on a missing
/// virtual answer, is one of `ENOENT`, `EROFS`, `EBADF` and `ERANGE`.
pub proof fn lemma_reported_errnos<T>(c: SysConsts, virtual_mode: bool, call: Call, answer: Option<T>)
    ensures
        route_of(c, virtual_mode, call) matches Route::Refused { errno } ==> errno == c.erofs,
        reply_of(c, call, answer) matches Reply::Failure { errno: Some(e) } ==> (e == c.enoent
            || e == c.ebadf || e == c.erange),
{
}

/// A virtual answer reaches the caller unchanged, and the caller sees a
/// failure exactly when the virtual file system has no answer.
pub proof fn lemma_answers_pass_through<T>(c: SysConsts, call: Call, answer: Option<T>)
    ensures
        reply_of(c, call, answer) is Value <==> answer is Some,
        answer matches Some(v) ==> reply_of(c, call, answer) == Reply::Value(v),
{
}

/// A thread registered by `inherit` has each of its calls routed exactly as
/// its creator's same call.
pub proof fn lemma_child_routed_like_creator(
    c: SysConsts,
    before: Map<u64, bool>,
    parent: u64,
    child: u64,
    call: Call,
)
    requires
        before.contains_key(parent),
    ensures
        thread_route_of(c, before.insert(child, before[parent]), child, call) == thread_route_of(
            c,
            before,
            parent,
            call,
        ),
{
}

/// Or-ing into a flag word a non-zero bit pattern `a` that shares no bit with
/// the word changes the word.
proof fn lemma_extra_flag_changes_word(r: i32, a: i32, b: i32, d: i32)
    by (bit_vector)
    requires
        a != 0,
        a & r == 0,
        a & d == 0,
    ensures
        r | a != r,
        r | a | b != r,
        r | b | a != r,
        r | a | d != r | d,
{
}

/// With the constants that libc defines on every target (see
/// `SysConsts::host`), a plain read-only open or an open of a read-only
/// directory without close-on-exec is refused in virtual mode, and the
/// refusal (`EROFS`) is told apart from every miss (`ENOENT`, `EBADF`,
/// `ERANGE`).
pub proof fn lemma_plain_read_only_opens_are_refused(c: SysConsts)
    requires
        c.open_flags_separate(),
        c.errnos_distinct(),
    ensures
        !read_only_open(c, c.o_rdonly),
        route_of(c, true, (Call::Open { oflag: c.o_rdonly })) == (Route::Refused { errno: c.erofs }),
        !read_only_openat(c, c.o_rdonly | c.o_directory),
        route_of(c, true, (Call::OpenAt { flags: c.o_rdonly | c.o_directory })) == (Route::Refused {
            errno: c.erofs,
        }),
        c.erofs != c.enoent && c.erofs != c.ebadf && c.erofs != c.erange,
{
    lemma_extra_flag_changes_word(c.o_rdonly, c.o_nonblock, c.o_cloexec, c.o_directory);
    lemma_extra_flag_changes_word(c.o_rdonly, c.o_cloexec, c.o_nonblock, c.o_directory);
    lemma_extra_flag_changes_word(c.o_rdonly, c.o_noatime, c.o_nonblock, c.o_directory);
}

/// A flag word equal to one of the four read-only open words has no bit
/// outside `r | n | x | a`.
proof fn lemma_open_word_bits(w: i32, r: i32, n: i32, x: i32, a: i32)
    by (bit_vector)
    ensures
        (w == r | n | x || w == r | n || w == r | x || w == r | a) ==> w & !(r | n | x | a)
            == 0,
{
}

/// A flag word equal to `r | x | d` has no bit outside it, and holds every
/// bit of `x` and of `d`.
proof fn lemma_openat_word_bits(w: i32, r: i32, x: i32, d: i32)
    by (bit_vector)
    ensures
        w == r | x | d ==> w & !(r | x | d) == 0,
        w == r | x | d ==> w & x == x,
        w == r | x | d ==> w & d == d,
{
}

/// In virtual mode an `open` is served by the virtual file system exactly
/// when its flag word is `O_RDONLY|O_NONBLOCK|O_CLOEXEC`, `O_RDONLY|O_NONBLOCK`,
/// `O_RDONLY|O_CLOEXEC` or `O_RDONLY|O_NOATIME`; every other flag word is
/// refused with `EROFS`. In particular a flag word with any bit outside these
/// four flags (an access mode of writing, `O_CREAT`, `O_TRUNC`, `O_APPEND`,
/// ...) is refused, and so is a bare `O_RDONLY`.
pub proof fn lemma_open_served_only_for_read_only_words(c: SysConsts, oflag: i32)
    ensures
        route_of(c, true, (Call::Open { oflag })) == (if oflag == c.o_rdonly | c.o_nonblock
            | c.o_cloexec || oflag == c.o_rdonly | c.o_nonblock || oflag == c.o_rdonly
            | c.o_cloexec || oflag == c.o_rdonly | c.o_noatime {
            Route::Virtual
        } else {
            Route::Refused { errno: c.erofs }
        }),
        oflag & !(c.o_rdonly | c.o_nonblock | c.o_cloexec | c.o_noatime) != 0 ==> route_of(
            c,
            true,
            (Call::Open { oflag }),
        ) == (Route::Refused { errno: c.erofs }),
        c.open_flags_separate() && oflag == c.o_rdonly ==> route_of(
            c,
            true,
            (Call::Open { oflag }),
        ) == (Route::Refused { errno: c.erofs }),
{
    lemma_open_word_bits(oflag, c.o_rdonly, c.o_nonblock, c.o_cloexec, c.o_noatime);
    if c.open_flags_separate() {
        lemma_extra_flag_changes_word(c.o_rdonly, c.o_nonblock, c.o_cloexec, c.o_directory);
        lemma_extra_flag_changes_word(c.o_rdonly, c.o_cloexec, c.o_nonblock, c.o_directory);
        lemma_extra_flag_changes_word(c.o_rdonly, c.o_noatime, c.o_nonblock, c.o_directory);
    }
}

/// In virtual mode an `openat` is served by the virtual file system exactly
/// when its flags are `O_RDONLY|O_CLOEXEC|O_DIRECTORY`; every other flag word
/// is refused with `EROFS`. In particular flags with any bit outside these
/// three (writing, `O_CREAT`, `O_APPEND`, ...) are refused, and so are flags
/// that lack `O_CLOEXEC` or `O_DIRECTORY`.
pub proof fn lemma_openat_served_only_for_read_only_directory(c: SysConsts, flags: i32)
    ensures
        route_of(c, true, (Call::OpenAt { flags })) == (if flags == c.o_rdonly | c.o_cloexec
            | c.o_directory {
            Route::Virtual
        } else {
            Route::Refused { errno: c.erofs }
        }),
        flags & !(c.o_rdonly | c.o_cloexec | c.o_directory) != 0 ==> route_of(
            c,
            true,
            (Call::OpenAt { flags }),
        ) == (Route::Refused { errno: c.erofs }),
        flags & c.o_cloexec != c.o_cloexec || flags & c.o_directory != c.o_directory ==> route_of(
            c,
            true,
            (Call::OpenAt { flags }),
        ) == (Route::Refused { errno: c.erofs }),
{
    lemma_openat_word_bits(flags, c.o_rdonly, c.o_cloexec, c.o_directory);
}

/// Whether `call` is an `open` or an `openat`.
pub open spec fn is_open_call(call: Call) -> bool {
    call is Open || call is OpenAt
}

/// Whether `call` is a mapping of no descriptor (`fd == -1`).
pub open spec fn maps_no_descriptor(call: Call) -> bool {
    call matches Call::Mmap { fd } && fd == -1
}

/// In virtual mode every intercepted call other than `open` and `openat` is
/// served by the virtual file system, whatever its arguments; in particular a
/// mapping of any descriptor other than -1.
pub proof fn lemma_virtual_mode_serves_all_but_opens(c: SysConsts, call: Call)
    ensures
        !is_open_call(call) && !maps_no_descriptor(call) ==> route_of(c, true, call)
            == Route::Virtual,
        forall|fd: i32| fd != -1 ==> #[trigger] route_of(c, true, (Call::Mmap { fd })) == Route::Virtual,
{
}

/// A thread that the table of modes knows has each call routed by its own
/// mode, unchanged: so a thread in virtual mode has every call other than an
/// open, and other than a mapping of no descriptor, served virtually.
pub proof fn lemma_known_thread_routed_by_its_mode(
    c: SysConsts,
    modes: Map<u64, bool>,
    thread: u64,
    call: Call,
)
    requires
        modes.contains_key(thread),
    ensures
        thread_route_of(c, modes, thread, call) == Some(route_of(c, modes[thread], call)),
        modes[thread] && !is_open_call(call) && !maps_no_descriptor(call) ==> thread_route_of(
            c,
            modes,
            thread,
            call,
        ) == Some(Route::Virtual),
        !modes[thread] ==> thread_route_of(c, modes, thread, call) == Some(Route::Native),
{
}

/// The `errno` of a missing virtual answer depends only on the kind of call,
/// never on its arguments: `ENOENT` for every `open`, `openat` and `chdir`,
/// `ERANGE` for `getcwd`, none for `fstat` and `close`, and `EBADF` for every
/// `mmap`, `read`, `stat`, `lstat`, `fdopendir`, `readdir` and `closedir`.
pub proof fn lemma_miss_errno_by_call_kind(c: SysConsts)
    ensures
        forall|oflag: i32| #[trigger] reply_of::<i32>(c, (Call::Open { oflag }), None) == (Reply::<i32>::Failure {
            errno: Some(c.enoent),
        }),
        forall|flags: i32| #[trigger] reply_of::<i32>(c, (Call::OpenAt { flags }), None) == (Reply::<i32>::Failure {
            errno: Some(c.enoent),
        }),
        forall|fd: i32| #[trigger] reply_of::<i32>(c, (Call::Mmap { fd }), None) == (Reply::<i32>::Failure {
            errno: Some(c.ebadf),
        }),
        reply_of::<i32>(c, Call::Chdir, None) == (Reply::<i32>::Failure { errno: Some(c.enoent) }),
        reply_of::<i32>(c, Call::Getcwd, None) == (Reply::<i32>::Failure { errno: Some(c.erange) }),
        reply_of::<i32>(c, Call::Fstat, None) == (Reply::<i32>::Failure { errno: None }),
        reply_of::<i32>(c, Call::Close, None) == (Reply::<i32>::Failure { errno: None }),
        reply_of::<i32>(c, Call::Read, None) == (Reply::<i32>::Failure { errno: Some(c.ebadf) }),
        reply_of::<i32>(c, Call::Stat, None) == (Reply::<i32>::Failure { errno: Some(c.ebadf) }),
        reply_of::<i32>(c, Call::Lstat, None) == (Reply::<i32>::Failure { errno: Some(c.ebadf) }),
        reply_of::<i32>(c, Call::Fdopendir, None) == (Reply::<i32>::Failure { errno: Some(c.ebadf) }),
        reply_of::<i32>(c, Call::Readdir, None) == (Reply::<i32>::Failure { errno: Some(c.ebadf) }),
        reply_of::<i32>(c, Call::Closedir, None) == (Reply::<i32>::Failure { errno: Some(c.ebadf) }),
{
}

/// A thread missing from the table of modes gets no route (its caller fails
/// as the thread lookup fails) for every call but a mapping of no descriptor,
/// which is native.
pub proof fn lemma_unknown_thread_has_no_route(
    c: SysConsts,
    modes: Map<u64, bool>,
    thread: u64,
    call: Call,
)
    requires
        !modes.contains_key(thread),
    ensures
        !maps_no_descriptor(call) ==> thread_route_of(c, modes, thread, call) == None::<Route>,
        maps_no_descriptor(call) ==> thread_route_of(c, modes, thread, call) == Some(Route::Native),
{
}

} // verus!
