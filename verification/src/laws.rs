use vstd::prelude::*;

use crate::error::IfaceError;
use crate::iface::close_step;
use crate::iface::io_precheck;
use crate::iface::max_transfer;
use crate::iface::planned_create;
use crate::iface::release_step;
use crate::iface::adopted_create;
use crate::iface::CreateRequest;
use crate::iface::Iface;
use crate::iface::Mode;
use crate::name::has_nul;

verus! {

/// Law: adopting a non-negative creation result yields an open,
/// well-formed handle holding exactly that descriptor — the value the
/// borrowing accessor then reports, unchanged, on every call.
pub proof fn lemma_adopt_nonnegative(ret: i32, r: Result<Iface, IfaceError>)
    requires
        ret >= 0,
        adopted_create(ret, r),
    ensures
        r matches Ok(h) && h.is_open() && h.wf() && h.fd_spec() == ret,
{
}

/// Law: a name holding an embedded null byte is rejected while the
/// creation is planned, whatever kind and MTU come with it: no request
/// is ever produced for it, so no external routine can run and no
/// descriptor can leak.
pub proof fn lemma_nul_name_rejected(
    name_bytes: Seq<u8>,
    mode: Mode,
    mtu: u32,
    r: Result<CreateRequest, IfaceError>,
)
    requires
        has_nul(name_bytes),
        planned_create(name_bytes, mode, mtu, r),
    ensures
        r == Err::<CreateRequest, IfaceError>(IfaceError::NameHasNul),
{
}

/// Law: requesting the `Tun` kind fails with the creation error for
/// every well-formed name and every MTU — no creation routine is wired
/// for it.  (A name with an embedded null byte is rejected earlier, with
/// the name error.)
pub proof fn lemma_tun_always_fails(
    name_bytes: Seq<u8>,
    mtu: u32,
    r: Result<CreateRequest, IfaceError>,
)
    requires
        !has_nul(name_bytes),
        planned_create(name_bytes, Mode::Tun, mtu, r),
    ensures
        r == Err::<CreateRequest, IfaceError>(IfaceError::CreationFailed),
{
}

/// Law: once the descriptor has been transferred out to a new owner, a
/// close event — explicit, or the one destruction performs — surrenders
/// no descriptor and changes nothing, so the transferred descriptor is
/// never closed through this handle.
pub proof fn lemma_release_then_close(
    pre: Iface,
    mid: Iface,
    taken: Option<i32>,
    post: Iface,
    r: Option<i32>,
)
    requires
        release_step(pre, mid, taken),
        close_step(mid, post, r),
    ensures
        r is None,
        post == mid,
{
}

/// Law: the descriptor is surrendered for closing at most once.  After
/// one close event, every further one yields nothing and changes
/// nothing, whatever state the handle started from.
pub proof fn lemma_close_at_most_once(
    pre: Iface,
    mid: Iface,
    r1: Option<i32>,
    post: Iface,
    r2: Option<i32>,
)
    requires
        close_step(pre, mid, r1),
        close_step(mid, post, r2),
    ensures
        r2 is None,
        post == mid,
{
}

/// Law: a buffer longer than the largest single transfer is always
/// rejected by the I/O guard, never passed through to a syscall; on a
/// handle that still owns its descriptor the error names the buffer.
pub proof fn lemma_oversized_buffer_rejected(h: Iface, len: nat)
    requires
        len > max_transfer(),
    ensures
        io_precheck(h, len) is Err,
        h.is_open() ==> io_precheck(h, len) == Err::<i32, IfaceError>(IfaceError::BufferTooLarge),
{
}

} // verus!
