# vmw_backdoor

A Verus-verified library for the VMware host-guest protocol ("VMXh
backdoor"), with the host plumbing around it.

- `src/` — the verified library:
  - `backdoor.rs`: protocol constants, the access guard, the version probe,
    the outcome of changing the I/O privilege level;
  - `erpc.rs`: enhanced-RPC channels, the register images of every request,
    the checks on every reply, command framing, the four-call
    command/reply exchange (one type per step) and the meaning of replies;
  - `cpu.rs`: recognising a VMware virtual CPU from CPUID registers;
  - `decimal.rs`: decimal rendering of integers, with its round-trip law;
  - `regs.rs`: the register images; `error.rs`: the error type.
- `app/` — plain Rust that performs what Verus cannot: `iopl()`, the port
  calls (inline assembly), CPUID, releasing resources on drop, logging, and
  a `thiserror` copy of the error type.
- `tests/` — tests of the library on concrete values.
