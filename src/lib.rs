//! A process-id scoped kernel tracer: the event wire format shared by the
//! probes and the consumer, the probes and the kernel-side state they share,
//! and the user-space resolution and lifecycle of the probe programs.
use vstd::prelude::*;

pub mod elf;
pub mod loader;
pub mod probes;
pub mod ring;
pub mod wire;

verus! {

} // verus!
