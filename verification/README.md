# rustux_syscalls

The system call layer of the Rustux kernel, written in Verus: every call's
result and its effect on user memory, handle tables and kernel object
registries is stated in its contract and proved.

Layout of `src/`:

- `lib.rs`: call numbers, arguments, result conversion, call statistics.
- `dispatch.rs`: the kernel state the dispatched calls act on, the
  per-call handlers, `syscall_dispatch` and the architecture entry points.
- `registry.rs`, `kobject.rs`, `usercopy.rs`: object registries, handle
  tables and the user-memory window the calls read and write.
- one module per object kind or call family: `vmar`/`aspace`, `vmo`,
  `channel`, `fifo`, `socket`, `port`, `event`, `object_wait`, `timer`,
  `futex`, `handle_ops`, `object`, `task`, `system` and its architecture
  modules, `profile`, `resource`, `pager`, `exceptions`, `ddk*`, `debug`,
  `hypervisor`, `test`, `wrapper`, `rustux`.

Public proof functions (`lemma_*`) state the laws the library keeps, such as
reading back what a write wrote or a lookup finding what an insertion placed.
