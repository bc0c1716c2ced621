//! A verified handle abstraction over a kernel virtual network interface
//! (TUN, TAP or MACVTAP).
//!
//! The crate verifies the part of such a handle that is pure logic: name
//! encoding, the dispatch from interface kind to creation routine, adoption
//! of the descriptor a routine returned, the guards in front of every read
//! and write, the translation of raw syscall results, and the lifecycle
//! state machine that releases the descriptor exactly once.  The syscalls
//! themselves are the embedding application's part: it obtains a
//! [`CreateRequest`], performs the call, and hands the raw result back.

mod error;
mod iface;
mod laws;
mod name;

pub use error::IfaceError;
pub use iface::adopted_create;
pub use iface::close_step;
pub use iface::io_outcome;
pub use iface::io_precheck;
pub use iface::max_transfer;
pub use iface::planned_create;
pub use iface::release_step;
pub use iface::routine_for;
pub use iface::CreateRequest;
pub use iface::Iface;
pub use iface::Mode;
pub use iface::Routine;
pub use iface::Status;
pub use iface::DEVICE_NAME_LEN;
pub use laws::lemma_adopt_nonnegative;
pub use laws::lemma_close_at_most_once;
pub use laws::lemma_nul_name_rejected;
pub use laws::lemma_oversized_buffer_rejected;
pub use laws::lemma_release_then_close;
pub use laws::lemma_tun_always_fails;
pub use name::encode_name;
pub use name::encoded_name;
pub use name::has_nul;
