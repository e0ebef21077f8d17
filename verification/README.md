# kompo_wrap

The decision logic of a libc interposition layer that serves the
file-system calls of threads in "virtual mode" from an embedded, read-only
virtual file system, verified with Verus.

- `src/context.rs`: the table of thread modes (creation, lookup, and the
  inheritance of a creator's mode by a new thread).
- `src/dispatch.rs`: where each intercepted call goes (native libc, the
  virtual file system, or an immediate `EROFS` refusal) and what its caller
  sees when the virtual file system answers or has no answer.
- `src/sys.rs`: the libc constants that these rules use.
- `app/`: the exported C entry points, which perform the native calls
  (found with `dlsym(RTLD_NEXT, ..)`), the virtual file-system calls and the
  `errno` updates that the library decides.
