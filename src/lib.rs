//! Assembly helpers for a UEFI secure-boot stub: ESP path layout, UEFI path
//! encoding, PE free-offset computation and section placement.

pub mod esp;
pub mod layout;
pub mod pe;
pub mod uefi;
