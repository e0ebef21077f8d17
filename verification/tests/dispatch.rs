use kompo_wrap::context::{inherit, new_context};
use kompo_wrap::dispatch::{
    after_anonymous_mapping, anonymous_mapping, route, route_for_thread, route_without_table,
    settle, status_of, Call, MmapNext, Reply, Route,
};
use kompo_wrap::sys::SysConsts;

const ALL_CALLS_BUT_OPENS: [Call; 11] = [
    Call::Mmap { fd: 3 },
    Call::Read,
    Call::Stat,
    Call::Lstat,
    Call::Fstat,
    Call::Close,
    Call::Getcwd,
    Call::Fdopendir,
    Call::Readdir,
    Call::Closedir,
    Call::Chdir,
];

fn host() -> SysConsts {
    SysConsts::host()
}

#[test]
fn host_constants_are_those_of_libc() {
    let c = host();
    assert_eq!(c.o_rdonly, libc::O_RDONLY);
    assert_eq!(c.o_nonblock, libc::O_NONBLOCK);
    assert_eq!(c.o_cloexec, libc::O_CLOEXEC);
    assert_eq!(c.o_noatime, libc::O_NOATIME);
    assert_eq!(c.o_directory, libc::O_DIRECTORY);
    assert_eq!(c.enoent, libc::ENOENT);
    assert_eq!(c.erofs, libc::EROFS);
    assert_eq!(c.ebadf, libc::EBADF);
    assert_eq!(c.erange, libc::ERANGE);
    assert_eq!(c.prot_read, libc::PROT_READ);
    assert_eq!(c.prot_write, libc::PROT_WRITE);
    assert_eq!(c.map_anonymous, libc::MAP_ANONYMOUS);
    assert_eq!(c.map_private, libc::MAP_PRIVATE);
}

#[test]
fn read_only_opens_are_virtual() {
    let c = host();
    for oflag in [
        libc::O_RDONLY | libc::O_NONBLOCK | libc::O_CLOEXEC,
        libc::O_RDONLY | libc::O_NONBLOCK,
        libc::O_RDONLY | libc::O_CLOEXEC,
        libc::O_RDONLY | libc::O_NOATIME,
    ] {
        assert_eq!(route(&c, true, Call::Open { oflag }), Route::Virtual);
    }
}

#[test]
fn other_opens_are_refused_read_only() {
    let c = host();
    for oflag in [
        libc::O_RDONLY,
        libc::O_WRONLY,
        libc::O_RDWR | libc::O_CREAT,
        libc::O_RDONLY | libc::O_CLOEXEC | libc::O_DIRECTORY,
        libc::O_RDONLY | libc::O_NOATIME | libc::O_CLOEXEC,
    ] {
        assert_eq!(
            route(&c, true, Call::Open { oflag }),
            Route::Refused { errno: libc::EROFS }
        );
    }
}

#[test]
fn openat_serves_only_read_only_directories() {
    let c = host();
    let dir = libc::O_RDONLY | libc::O_CLOEXEC | libc::O_DIRECTORY;
    assert_eq!(route(&c, true, Call::OpenAt { flags: dir }), Route::Virtual);
    assert_eq!(
        route(&c, true, Call::OpenAt { flags: libc::O_RDONLY | libc::O_CLOEXEC }),
        Route::Refused { errno: libc::EROFS }
    );
    assert_eq!(
        route(&c, true, Call::OpenAt { flags: libc::O_WRONLY | libc::O_CREAT }),
        Route::Refused { errno: libc::EROFS }
    );
}

#[test]
fn native_mode_forwards_everything() {
    let c = host();
    for call in ALL_CALLS_BUT_OPENS {
        assert_eq!(route(&c, false, call), Route::Native);
    }
    assert_eq!(route(&c, false, Call::Open { oflag: libc::O_WRONLY }), Route::Native);
    assert_eq!(route(&c, false, Call::OpenAt { flags: libc::O_RDWR }), Route::Native);
}

#[test]
fn virtual_mode_serves_everything_else_virtually() {
    let c = host();
    for call in ALL_CALLS_BUT_OPENS {
        assert_eq!(route(&c, true, call), Route::Virtual);
    }
}

#[test]
fn anonymous_mmap_is_native_in_both_modes() {
    let c = host();
    assert_eq!(route(&c, true, Call::Mmap { fd: -1 }), Route::Native);
    assert_eq!(route(&c, false, Call::Mmap { fd: -1 }), Route::Native);
}

#[test]
fn route_for_thread_reads_the_thread_mode() {
    let c = host();
    let mut modes = new_context(1);
    modes.insert(2, true);
    assert_eq!(route_for_thread(&c, &modes, 1, Call::Read), Some(Route::Native));
    assert_eq!(route_for_thread(&c, &modes, 2, Call::Read), Some(Route::Virtual));
    assert_eq!(
        route_for_thread(&c, &modes, 2, Call::Open { oflag: libc::O_WRONLY }),
        Some(Route::Refused { errno: libc::EROFS })
    );
    assert_eq!(route_for_thread(&c, &modes, 3, Call::Read), None);
    assert_eq!(route_for_thread(&c, &modes, 3, Call::Mmap { fd: 4 }), None);
}

#[test]
fn anonymous_mmap_is_native_for_unknown_threads() {
    let c = host();
    let modes = new_context(1);
    assert_eq!(
        route_for_thread(&c, &modes, 77, Call::Mmap { fd: -1 }),
        Some(Route::Native)
    );
}

#[test]
fn child_is_routed_like_its_creator() {
    let c = host();
    let mut modes = new_context(1);
    modes.insert(2, true);
    inherit(&mut modes, 2, 3);
    for call in ALL_CALLS_BUT_OPENS {
        assert_eq!(
            route_for_thread(&c, &modes, 3, call),
            route_for_thread(&c, &modes, 2, call)
        );
    }
    assert_eq!(route_for_thread(&c, &modes, 3, Call::Read), Some(Route::Virtual));
}

#[test]
fn answers_reach_the_caller_unchanged() {
    let c = host();
    assert_eq!(settle(&c, Call::Open { oflag: 0 }, Some(42)), Reply::Value(42));
    assert_eq!(settle(&c, Call::Read, Some(-7isize)), Reply::Value(-7isize));
    assert_eq!(settle(&c, Call::Closedir, Some(5)), Reply::Value(5));
    assert_eq!(settle(&c, Call::Chdir, Some(())), Reply::Value(()));
}

#[test]
fn missing_answers_report_enoent_for_paths() {
    let c = host();
    for call in [Call::Open { oflag: 0 }, Call::OpenAt { flags: 0 }, Call::Chdir] {
        assert_eq!(
            settle::<i32>(&c, call, None),
            Reply::Failure { errno: Some(libc::ENOENT) }
        );
    }
}

#[test]
fn missing_answers_report_ebadf_for_descriptors() {
    let c = host();
    for call in [
        Call::Mmap { fd: 3 },
        Call::Read,
        Call::Stat,
        Call::Lstat,
        Call::Fdopendir,
        Call::Readdir,
        Call::Closedir,
    ] {
        assert_eq!(
            settle::<i32>(&c, call, None),
            Reply::Failure { errno: Some(libc::EBADF) }
        );
    }
}

#[test]
fn missing_working_directory_reports_erange() {
    let c = host();
    assert_eq!(
        settle::<i32>(&c, Call::Getcwd, None),
        Reply::Failure { errno: Some(libc::ERANGE) }
    );
}

#[test]
fn fstat_and_close_set_no_errno() {
    let c = host();
    assert_eq!(settle::<i32>(&c, Call::Fstat, None), Reply::Failure { errno: None });
    assert_eq!(settle::<i32>(&c, Call::Close, None), Reply::Failure { errno: None });
}

#[test]
fn anonymous_mapping_is_private_and_writable() {
    let c = host();
    let m = anonymous_mapping(&c);
    assert_eq!(m.prot, libc::PROT_READ | libc::PROT_WRITE);
    assert_eq!(m.flags, libc::MAP_ANONYMOUS | libc::MAP_PRIVATE);
    assert_eq!(m.fd, -1);
}

#[test]
fn routes_with_chosen_constants() {
    let c = SysConsts {
        o_rdonly: 0,
        o_nonblock: 0x800,
        o_cloexec: 0x80000,
        o_noatime: 0x40000,
        o_directory: 0x10000,
        enoent: 2,
        erofs: 30,
        ebadf: 9,
        erange: 34,
        prot_read: 1,
        prot_write: 2,
        map_anonymous: 0x20,
        map_private: 2,
    };
    assert_eq!(route(&c, true, Call::Open { oflag: 0x80800 }), Route::Virtual);
    assert_eq!(route(&c, true, Call::Open { oflag: 0x40000 }), Route::Virtual);
    assert_eq!(route(&c, true, Call::Open { oflag: 1 }), Route::Refused { errno: 30 });
    assert_eq!(route(&c, true, Call::OpenAt { flags: 0x90000 }), Route::Virtual);
    assert_eq!(settle::<i32>(&c, Call::Getcwd, None), Reply::Failure { errno: Some(34) });
    let m = anonymous_mapping(&c);
    assert_eq!((m.prot, m.flags, m.fd), (3, 0x22, -1));
}

#[test]
fn host_flags_are_separate_and_errnos_distinct() {
    let c = host();
    let flags = [c.o_nonblock, c.o_cloexec, c.o_noatime, c.o_directory];
    for (i, a) in flags.iter().enumerate() {
        assert_ne!(*a, 0);
        assert_eq!(a & c.o_rdonly, 0);
        for b in &flags[i + 1..] {
            assert_eq!(a & b, 0);
        }
    }
    let errnos = [c.enoent, c.erofs, c.ebadf, c.erange];
    for (i, a) in errnos.iter().enumerate() {
        for b in &errnos[i + 1..] {
            assert_ne!(a, b);
        }
    }
}

#[test]
fn plain_read_only_opens_are_refused_with_host_constants() {
    let c = host();
    assert_eq!(
        route(&c, true, Call::Open { oflag: c.o_rdonly }),
        Route::Refused { errno: libc::EROFS }
    );
    assert_eq!(
        route(&c, true, Call::OpenAt { flags: c.o_rdonly | c.o_directory }),
        Route::Refused { errno: libc::EROFS }
    );
    assert_ne!(libc::EROFS, libc::ENOENT);
}

#[test]
fn route_without_table_decides_only_anonymous_mmap() {
    assert_eq!(route_without_table(Call::Mmap { fd: -1 }), Some(Route::Native));
    assert_eq!(route_without_table(Call::Mmap { fd: 0 }), None);
    assert_eq!(route_without_table(Call::Read), None);
    assert_eq!(route_without_table(Call::Open { oflag: 0 }), None);
}

#[test]
fn failed_anonymous_mapping_is_returned_as_is() {
    assert_eq!(after_anonymous_mapping(true), MmapNext::ReturnMapping);
    assert_eq!(after_anonymous_mapping(false), MmapNext::Fill);
}

#[test]
fn status_is_zero_on_success_and_minus_one_on_failure() {
    let c = host();
    assert_eq!(status_of(&settle(&c, Call::Chdir, Some(()))), 0);
    assert_eq!(status_of(&settle::<()>(&c, Call::Chdir, None)), -1);
    assert_eq!(status_of(&settle(&c, Call::Closedir, Some(7))), 0);
    assert_eq!(status_of(&settle::<i32>(&c, Call::Closedir, None)), -1);
}
