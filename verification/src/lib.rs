//! Extended page tables (EPT) and memory-type range registers (MTRR) for a
//! small Intel VMX hypervisor extension: the bit layouts of EPT entries and of
//! the EPT pointer, the index arithmetic of a four-level EPT walk, the
//! decisions that build an identity map out of 2-MByte pages, and the MTRR
//! model that decides the memory type of each physical address.

#![allow(unused_imports)]

pub mod bitfield;
pub mod ept;
pub mod ept_entry;
pub mod ept_pd_2m;
pub mod ept_pointer;
pub mod errc;
pub mod gs;
pub mod mtrr;
pub mod vmexit;
