use vstd::prelude::*;
use vstd::string::StringSliceAdditionalSpecFns;

use crate::error::IfaceError;
use crate::name::encode_name;
use crate::name::has_nul;

verus! {

/// The kind of virtual interface a caller may request.
#[derive(Debug, Clone, Copy, PartialEq, Eq, Structural)]
pub enum Mode {
    /// IP-layer interface.  Recognized, but no creation routine is wired
    /// for it, so requesting it always fails.
    Tun,
    /// Link-layer interface carrying Ethernet frames.
    Tap,
    /// TAP-like interface bound to a physical interface via a virtual MAC.
    MacvTap,
}

/// The external creation entry points that are actually wired.  Only
/// requests for these two can be constructed; every other kind is turned
/// away while a request is planned.
#[derive(Debug, Clone, Copy, PartialEq, Eq, Structural)]
pub enum Routine {
    /// The TAP creation entry point.
    Tap,
    /// The MACVTAP creation entry point.
    MacvTap,
}

/// The creation routine wired for a kind, if any.
pub open spec fn routine_for(mode: Mode) -> Option<Routine> {
    match mode {
        Mode::Tun => None,
        Mode::Tap => Some(Routine::Tap),
        Mode::MacvTap => Some(Routine::MacvTap),
    }
}

/// Length of the buffer that receives the resolved device name from the
/// creation routine.  Its size is a boundary contract with that routine,
/// which must never write past it.
pub const DEVICE_NAME_LEN: usize = 256;

/// A fully validated creation request: everything the external creation
/// routine is handed.  One is produced only for a name free of embedded
/// null bytes and a kind with a wired routine.
#[derive(Debug, PartialEq, Eq)]
pub struct CreateRequest {
    /// The interface name as a null-terminated byte string.
    pub name_z: Vec<u8>,
    /// Which external entry point to invoke.
    pub routine: Routine,
    /// Requested maximum transmission unit, passed through unvalidated.
    pub mtu: u32,
}

/// What planning a creation yields for a given name, kind and MTU: a
/// request for the wired routine, the name-encoding error when the name
/// holds a null byte, or the creation error when no routine is wired.
/// The name is examined first, so an unwired kind is only reported for a
/// well-formed name.
pub open spec fn planned_create(
    name_bytes: Seq<u8>,
    mode: Mode,
    mtu: u32,
    r: Result<CreateRequest, IfaceError>,
) -> bool {
    match r {
        Ok(req) => {
            &&& !has_nul(name_bytes)
            &&& routine_for(mode) == Some(req.routine)
            &&& req.name_z@ == name_bytes.push(0u8)
            &&& req.mtu == mtu
        },
        Err(e) => {
            if has_nul(name_bytes) {
                e == IfaceError::NameHasNul
            } else {
                &&& routine_for(mode) is None
                &&& e == IfaceError::CreationFailed
            }
        },
    }
}

impl CreateRequest {
    /// Plan a creation: validate the name and pick the routine wired for
    /// the requested kind.  No external routine has run yet; the caller
    /// performs the call this request describes and adopts its result
    /// with [`Iface::from_create_result`].
    pub fn new(name: &str, mode: Mode, mtu: u32) -> (r: Result<CreateRequest, IfaceError>)
        ensures
            planned_create(name.spec_bytes(), mode, mtu, r),
    {
        let name_z = match encode_name(name) {
            Ok(z) => z,
            Err(e) => {
                return Err(e);
            },
        };
        let routine = match mode {
            Mode::Tap => Routine::Tap,
            Mode::MacvTap => Routine::MacvTap,
            Mode::Tun => {
                return Err(IfaceError::CreationFailed);
            },
        };
        Ok(CreateRequest { name_z, routine, mtu })
    }

    /// A zeroed buffer of [`DEVICE_NAME_LEN`] bytes for the creation
    /// routine to write the resolved device name into.
    pub fn device_name_buffer() -> (v: Vec<u8>)
        ensures
            v@ == Seq::new(DEVICE_NAME_LEN as nat, |i: int| 0u8),
    {
        let mut v: Vec<u8> = Vec::new();
        let mut i: usize = 0;
        while i < DEVICE_NAME_LEN
            invariant
                i <= DEVICE_NAME_LEN,
                v@ =~= Seq::new(i as nat, |j: int| 0u8),
            decreases DEVICE_NAME_LEN - i,
        {
            v.push(0);
            i += 1;
        }
        assert(v@ =~= Seq::new(DEVICE_NAME_LEN as nat, |i: int| 0u8));
        v
    }
}

/// Where a handle stands in its lifecycle.  There is no way back to
/// `Open`: a descriptor, once surrendered, is gone from the handle.
#[derive(Debug, Clone, Copy, PartialEq, Eq, Structural)]
pub enum Status {
    /// The handle owns its descriptor; reads and writes are permitted.
    Open,
    /// The descriptor was surrendered for the OS close; the handle owns
    /// nothing any more.
    Closed,
    /// Ownership of the descriptor was transferred to another owner; the
    /// handle will never surrender it for closing.
    Released,
}

/// An owning handle over one OS descriptor for a virtual network
/// interface.
///
/// A live handle owns exactly one valid descriptor; the descriptor value
/// never changes, only the ownership status does.  The handle surrenders
/// the descriptor at most once — either to be closed ([`Iface::close`])
/// or to a new owner ([`Iface::release`]) — and after that every further
/// lifecycle event yields nothing and changes nothing.
#[derive(Debug)]
pub struct Iface {
    fd: i32,
    status: Status,
}

impl Iface {
    /// The descriptor this handle was created over.
    pub closed spec fn fd_spec(&self) -> i32 {
        self.fd
    }

    /// Where the handle stands in its lifecycle.
    pub closed spec fn status_spec(&self) -> Status {
        self.status
    }

    /// Whether the handle still owns its descriptor.
    pub open spec fn is_open(&self) -> bool {
        self.status_spec() is Open
    }

    /// A handle is well formed when its descriptor is non-negative, as
    /// every descriptor adopted from a successful creation is.
    pub open spec fn wf(&self) -> bool {
        self.fd_spec() >= 0
    }
}

/// What adopting a raw creation result yields: an open handle over the
/// returned descriptor when it is non-negative, the creation error when
/// the routine reported failure with a negative value.
pub open spec fn adopted_create(ret: i32, r: Result<Iface, IfaceError>) -> bool {
    match r {
        Ok(h) => {
            &&& ret >= 0
            &&& h.fd_spec() == ret
            &&& h.status_spec() is Open
        },
        Err(e) => {
            &&& ret < 0
            &&& e == IfaceError::CreationFailed
        },
    }
}

/// What a close event does: an open handle surrenders its descriptor —
/// the value returned is the one descriptor the caller must now hand to
/// the OS close routine — and is closed from then on; a handle that owns
/// nothing yields nothing and is left unchanged.
pub open spec fn close_step(pre: Iface, post: Iface, r: Option<i32>) -> bool {
    if pre.is_open() {
        &&& r == Some(pre.fd_spec())
        &&& post.fd_spec() == pre.fd_spec()
        &&& post.status_spec() is Closed
    } else {
        &&& r is None
        &&& post == pre
    }
}

/// What a release event does: an open handle transfers ownership of its
/// descriptor out — the caller becomes solely responsible for eventually
/// closing it — and is released from then on; a handle that owns nothing
/// yields nothing and is left unchanged.
pub open spec fn release_step(pre: Iface, post: Iface, r: Option<i32>) -> bool {
    if pre.is_open() {
        &&& r == Some(pre.fd_spec())
        &&& post.fd_spec() == pre.fd_spec()
        &&& post.status_spec() is Released
    } else {
        &&& r is None
        &&& post == pre
    }
}

/// The largest number of bytes one read or write may transfer.
pub open spec fn max_transfer() -> int {
    isize::MAX as int
}

/// What guards a single read or write of `len` bytes on handle `h`: the
/// descriptor to operate on when the handle still owns one and the
/// buffer is within the largest single transfer, otherwise the error
/// naming what was wrong.  Ownership is examined first.
pub open spec fn io_precheck(h: Iface, len: nat) -> Result<i32, IfaceError> {
    if !h.is_open() {
        Err(IfaceError::NotOpen)
    } else if len > max_transfer() {
        Err(IfaceError::BufferTooLarge)
    } else {
        Ok(h.fd_spec())
    }
}

/// What translating one raw syscall return yields: a negative return is
/// the I/O error carrying the OS error code observed with it; any other
/// return is the number of bytes transferred.
pub open spec fn io_outcome(ret: isize, errno: i32) -> Result<usize, IfaceError> {
    if ret < 0 {
        Err(IfaceError::Io { errno })
    } else {
        Ok(ret as usize)
    }
}

impl Iface {
    /// Adopt the raw result of the creation routine a [`CreateRequest`]
    /// was dispatched to.  A non-negative result is a valid descriptor
    /// and yields the one handle owning it; a negative result is the
    /// routine's failure sentinel, and no descriptor is adopted, so no
    /// resource is held on failure.
    pub fn from_create_result(ret: i32) -> (r: Result<Iface, IfaceError>)
        ensures
            adopted_create(ret, r),
            r matches Ok(h) ==> h.wf(),
    {
        if ret < 0 {
            Err(IfaceError::CreationFailed)
        } else {
            Ok(Iface { fd: ret, status: Status::Open })
        }
    }

    /// Borrowing accessor: the descriptor value, while ownership stays
    /// with the handle, which remains responsible for the eventual
    /// close.  Repeated calls return the same value.
    pub fn as_raw_fd(&self) -> (r: i32)
        ensures
            r == self.fd_spec(),
    {
        self.fd
    }

    /// Close event: an open handle surrenders its descriptor exactly
    /// once.  The caller hands the returned descriptor to the OS close
    /// routine and observes its status; `None` means this handle owns no
    /// descriptor any more and nothing must be closed.
    pub fn close(&mut self) -> (r: Option<i32>)
        ensures
            close_step(*old(self), *final(self), r),
    {
        match self.status {
            Status::Open => {
                self.status = Status::Closed;
                Some(self.fd)
            },
            _ => None,
        }
    }

    /// Consuming accessor: transfers ownership of the descriptor out of
    /// the handle.  The caller becomes solely responsible for eventually
    /// closing the returned descriptor; this handle will never surrender
    /// it again, to a close event or otherwise.
    pub fn release(&mut self) -> (r: Option<i32>)
        ensures
            release_step(*old(self), *final(self), r),
    {
        match self.status {
            Status::Open => {
                self.status = Status::Released;
                Some(self.fd)
            },
            _ => None,
        }
    }

    /// Guard one blocking read of up to `buf_len` bytes: yields the
    /// descriptor to read from, after confirming the handle still owns
    /// it and the buffer is within the largest single transfer.  The
    /// caller performs exactly one read syscall and translates its raw
    /// result with [`Iface::complete_io`].
    pub fn prepare_read(&self, buf_len: usize) -> (r: Result<i32, IfaceError>)
        ensures
            r == io_precheck(*self, buf_len as nat),
    {
        self.io_guard(buf_len)
    }

    /// Guard one blocking write of up to `buf_len` bytes; the mirror of
    /// [`Iface::prepare_read`] for the write direction.
    pub fn prepare_write(&self, buf_len: usize) -> (r: Result<i32, IfaceError>)
        ensures
            r == io_precheck(*self, buf_len as nat),
    {
        self.io_guard(buf_len)
    }

    /// The shared guard behind both I/O directions.
    fn io_guard(&self, buf_len: usize) -> (r: Result<i32, IfaceError>)
        ensures
            r == io_precheck(*self, buf_len as nat),
    {
        match self.status {
            Status::Open => {
                if buf_len > isize::MAX as usize {
                    Err(IfaceError::BufferTooLarge)
                } else {
                    Ok(self.fd)
                }
            },
            _ => Err(IfaceError::NotOpen),
        }
    }

    /// Translate the raw return of the single read or write syscall the
    /// caller performed, together with the OS error code observed right
    /// after it.  A failed transfer leaves the handle untouched: the
    /// descriptor stays valid and owned, so the caller may retry.
    pub fn complete_io(ret: isize, errno: i32) -> (r: Result<usize, IfaceError>)
        ensures
            r == io_outcome(ret, errno),
    {
        if ret < 0 {
            Err(IfaceError::Io { errno })
        } else {
            Ok(ret as usize)
        }
    }

    /// Flushing is a no-op at this layer: the descriptor is unbuffered,
    /// every write is already handed to the kernel synchronously.
    pub fn flush(&self) -> (r: Result<(), IfaceError>)
        ensures
            r == Ok::<(), IfaceError>(()),
    {
        Ok(())
    }
}

} // verus!
