# ept_mtrr

Extended page tables and memory-type range registers for a small Intel VMX
hypervisor extension, verified with Verus.

- `src/bitfield.rs`: reading and replacing a bit field of a `u64`, with the
  laws that every register layout rests on.
- `src/ept_entry.rs`, `src/ept_pd_2m.rs`, `src/ept_pointer.rs`: the layouts of
  an EPT table entry, of a 2-MByte page-directory entry and of the EPT
  pointer; each value is viewed as the record of its fields, and each setter
  states which field changes and that the others stay.
- `src/ept.rs`: the table indices of a physical address, the EPT pointer, and
  the steps that map a 2-MByte page.
- `src/mtrr.rs`: decoding the variable MTRRs and the memory type of an
  address.
- `src/gs.rs`, `src/vmexit.rs`, `src/errc.rs`: the decisions of the global
  storage's initialisation, of the EPT identity map and of VM-exit dispatch.
- `app/lib.rs`: MSR reads, allocations and table dereferences, through traits
  that the hypervisor's system interface implements.
