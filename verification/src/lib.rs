//! Writes the contents of an archive onto a target filesystem image from
//! inside a disposable micro-VM sandbox, so that the host never mounts or
//! parses the untrusted filesystem itself.
//!
//! The crate holds the verified logic of both halves of the protocol: the
//! host orchestrator (filesystem identification, sector padding, kernel
//! image preparation, launch planning) and the guest bootstrap (boot
//! parameter parsing, device enumeration, mount planning, the phase state
//! machine). All I/O, system calls and the sandbox launcher itself live
//! outside the library and consume the plans and decisions computed here.

pub mod console;
pub mod fs_id;
pub mod guest;
pub mod host;
pub mod kernel;
pub mod padding;
pub mod seqtools;
pub mod uevent;
