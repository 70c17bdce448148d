# mmio_rs

Type-safe access to memory-mapped registers, with machine-checked proofs.

- `src/word.rs`: the register widths (`u8`, `u16`, `u32`, `u64`) as the `Word` trait.
- `src/space.rs`: `RegisterSpace`, the byte-addressed space registers point into
  (zero until written), with the sequence of loads and stores made on it. The model
  stores multi-byte registers little-endian, as on a little-endian target.
- `src/bits.rs`: the bit and bit-field arithmetic of the read-modify-write operations.
- `src/access.rs`: the `ReadOnly`, `WriteOnly`, `ReadWrite` access policies.
- `src/register.rs`: `Register<T, Access>`; each operation's effect on the space is
  given by a specification function.
- `src/block.rs`: `RegisterBlock` and `DynamicRegisterBlock`, base address plus offsets.
- `src/section.rs`: `CriticalSection`, `HostCriticalSection`, `critical_section`; a
  critical section's calls are recorded, and each one releases exactly the state it
  acquired.
- `src/irq_guard.rs`: `IrqGuard`, an open section; accesses made with it are
  recorded as made inside that section.
- `src/atomic.rs`: `AtomicRegister`, read-modify-write inside a critical section.
- `src/laws.rs`: proofs of the properties that span operations (read after write,
  bits after set/clear, field round trip, toggle twice, ...).
- `app/`: the hardware side: volatile loads and stores on real addresses, the
  link-time critical section (`impl_critical_section!`, released on drop) and
  `register_block!`.
