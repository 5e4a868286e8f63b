//! Probe engine for Unix-domain socket capabilities.
//!
//! The operating system's handling of Unix-domain socket addressing and of
//! file-descriptor passing varies between kernels and is not reliably
//! documented.  This crate holds the decision core of a battery of runtime
//! probes: building raw socket address buffers that approach or exceed the
//! structural path capacity, driving the over-length capacity scan, and
//! classifying every observed outcome into a capability verdict.  The
//! system calls themselves, and the printing of the verdict lines, live in
//! the unverified binary around this library; it hands each observation to
//! the classifiers here as plain values.

pub mod addr;
pub mod fdpass;
pub mod pathcmp;
pub mod probes;
pub mod report;
pub mod scan;
pub mod verdict;
