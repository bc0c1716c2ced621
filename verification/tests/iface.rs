use macvtap::CreateRequest;
use macvtap::Iface;
use macvtap::IfaceError;
use macvtap::Mode;
use macvtap::Routine;
use macvtap::DEVICE_NAME_LEN;

/// A stand-in for the external creation routine: counts its calls and
/// returns a configured descriptor.
struct FakeRoutine {
    calls: usize,
    ret: i32,
}

impl FakeRoutine {
    fn new(ret: i32) -> FakeRoutine {
        FakeRoutine { calls: 0, ret }
    }

    fn invoke(&mut self, _req: &CreateRequest) -> i32 {
        self.calls += 1;
        self.ret
    }
}

/// A stand-in for the OS close routine: records which descriptors were
/// closed and returns a configured status.
struct FakeClose {
    closed: Vec<i32>,
    status: i32,
}

impl FakeClose {
    fn new(status: i32) -> FakeClose {
        FakeClose { closed: Vec::new(), status }
    }

    fn close(&mut self, fd: Option<i32>) -> i32 {
        match fd {
            Some(fd) => {
                self.closed.push(fd);
                self.status
            }
            None => -1,
        }
    }
}

/// A loopback transport: what one end writes, the paired end reads back
/// in the same order.
struct Loopback {
    pending: Vec<u8>,
}

impl Loopback {
    fn new() -> Loopback {
        Loopback { pending: Vec::new() }
    }

    fn write(&mut self, _fd: i32, data: &[u8]) -> isize {
        self.pending.extend_from_slice(data);
        data.len() as isize
    }

    fn read(&mut self, _fd: i32, out: &mut [u8]) -> isize {
        let n = self.pending.len().min(out.len());
        out[..n].copy_from_slice(&self.pending[..n]);
        self.pending.drain(..n);
        n as isize
    }
}

#[test]
fn it_works() {
    assert_eq!(2 + 2, 4);
}

#[test]
fn valid_creation_yields_open_handle_with_stable_descriptor() {
    let mut routine = FakeRoutine::new(5);
    let req = CreateRequest::new("tap1", Mode::Tap, 1500).unwrap();
    assert_eq!(req.routine, Routine::Tap);
    assert_eq!(req.mtu, 1500);
    let ret = routine.invoke(&req);
    let h = Iface::from_create_result(ret).unwrap();
    assert!(h.as_raw_fd() >= 0);
    assert_eq!(h.as_raw_fd(), 5);
    assert_eq!(h.as_raw_fd(), 5);
    assert_eq!(routine.calls, 1);
}

#[test]
fn nul_name_never_reaches_routine() {
    let mut routine = FakeRoutine::new(5);
    match CreateRequest::new("ta\0p0", Mode::Tap, 1500) {
        Ok(req) => {
            routine.invoke(&req);
            panic!("a name with an embedded null byte must be rejected");
        }
        Err(e) => assert_eq!(e, IfaceError::NameHasNul),
    }
    assert_eq!(routine.calls, 0);
}

#[test]
fn nul_name_rejected_for_every_kind() {
    for mode in [Mode::Tun, Mode::Tap, Mode::MacvTap] {
        let r = CreateRequest::new("\0", mode, 9000);
        assert_eq!(r, Err(IfaceError::NameHasNul));
    }
}

#[test]
fn tun_creation_always_fails() {
    assert_eq!(
        CreateRequest::new("tap0", Mode::Tun, 1500),
        Err(IfaceError::CreationFailed)
    );
    assert_eq!(
        CreateRequest::new("", Mode::Tun, 0),
        Err(IfaceError::CreationFailed)
    );
    assert_eq!(
        CreateRequest::new("a-very-long-interface-name", Mode::Tun, 65535),
        Err(IfaceError::CreationFailed)
    );
}

#[test]
fn loopback_round_trip() {
    let mut transport = Loopback::new();
    let writer = Iface::from_create_result(3).unwrap();
    let reader = Iface::from_create_result(4).unwrap();

    let message: Vec<u8> = vec![0x45, 0x00, 0x00, 0x54, 0xaa];
    let fd = writer.prepare_write(message.len()).unwrap();
    let ret = transport.write(fd, &message);
    let written = Iface::complete_io(ret, 0).unwrap();
    assert_eq!(written, message.len());

    let mut buf = vec![0u8; 16];
    let fd = reader.prepare_read(buf.len()).unwrap();
    let ret = transport.read(fd, &mut buf);
    let got = Iface::complete_io(ret, 0).unwrap();
    assert_eq!(got, message.len());
    assert_eq!(&buf[..got], &message[..]);
}

#[test]
fn release_then_destroy_closes_nothing() {
    let mut os = FakeClose::new(0);
    let mut h = Iface::from_create_result(9).unwrap();
    let taken = h.release();
    assert_eq!(taken, Some(9));
    // What destruction would do for a handle that was not consumed:
    // surrender the descriptor and hand it to the OS close routine.
    let status = os.close(h.close());
    assert_eq!(status, -1);
    assert!(os.closed.is_empty());
}

#[test]
fn close_surrenders_descriptor_exactly_once() {
    let mut os = FakeClose::new(0);
    let mut h = Iface::from_create_result(6).unwrap();
    assert_eq!(os.close(h.close()), 0);
    assert_eq!(os.close(h.close()), -1);
    assert_eq!(os.closed, vec![6]);
}

#[test]
fn oversized_buffer_rejected() {
    let h = Iface::from_create_result(5).unwrap();
    let too_big = (isize::MAX as usize) + 1;
    assert_eq!(h.prepare_read(too_big), Err(IfaceError::BufferTooLarge));
    assert_eq!(h.prepare_write(too_big), Err(IfaceError::BufferTooLarge));
    assert_eq!(h.prepare_read(isize::MAX as usize), Ok(5));
    assert_eq!(h.prepare_write(0), Ok(5));
}

#[test]
fn io_rejected_once_descriptor_is_gone() {
    let mut h = Iface::from_create_result(5).unwrap();
    h.close();
    assert_eq!(h.prepare_read(4), Err(IfaceError::NotOpen));
    assert_eq!(h.prepare_write(4), Err(IfaceError::NotOpen));

    let mut h = Iface::from_create_result(5).unwrap();
    h.release();
    assert_eq!(h.prepare_read(4), Err(IfaceError::NotOpen));
}

#[test]
fn macvtap_create_scenario() {
    let mut routine = FakeRoutine::new(7);
    let mut os = FakeClose::new(0);
    let req = CreateRequest::new("tap0", Mode::MacvTap, 1500).unwrap();
    assert_eq!(req.routine, Routine::MacvTap);
    assert_eq!(req.mtu, 1500);
    assert_eq!(req.name_z, vec![b't', b'a', b'p', b'0', 0]);
    let ret = routine.invoke(&req);
    let mut h = Iface::from_create_result(ret).unwrap();
    assert_eq!(h.as_raw_fd(), 7);
    let status = os.close(h.close());
    assert_eq!(status, 0);
    assert_eq!(os.closed, vec![7]);
}

#[test]
fn tap_create_failure_scenario() {
    let mut routine = FakeRoutine::new(-1);
    let req = CreateRequest::new("tap0", Mode::Tap, 1500).unwrap();
    let ret = routine.invoke(&req);
    let r = Iface::from_create_result(ret);
    assert_eq!(r.err(), Some(IfaceError::CreationFailed));
}

#[test]
fn encode_name_appends_terminator() {
    assert_eq!(macvtap::encode_name("tap0"), Ok(vec![b't', b'a', b'p', b'0', 0]));
    assert_eq!(macvtap::encode_name(""), Ok(vec![0]));
}

#[test]
fn encode_name_rejects_embedded_nul() {
    assert_eq!(macvtap::encode_name("a\0b"), Err(IfaceError::NameHasNul));
    assert_eq!(macvtap::encode_name("\0"), Err(IfaceError::NameHasNul));
}

#[test]
fn io_error_carries_os_errno() {
    assert_eq!(Iface::complete_io(-1, 11), Err(IfaceError::Io { errno: 11 }));
    assert_eq!(Iface::complete_io(0, 0), Ok(0));
    assert_eq!(Iface::complete_io(42, 0), Ok(42));
}

#[test]
fn failed_io_leaves_handle_usable() {
    let h = Iface::from_create_result(5).unwrap();
    let r = Iface::complete_io(-1, 11);
    assert!(r.is_err());
    assert_eq!(h.prepare_read(4), Ok(5));
}

#[test]
fn flush_is_noop() {
    let h = Iface::from_create_result(5).unwrap();
    assert_eq!(h.flush(), Ok(()));
}

#[test]
fn device_name_buffer_is_zeroed() {
    let buf = CreateRequest::device_name_buffer();
    assert_eq!(buf.len(), DEVICE_NAME_LEN);
    assert!(buf.iter().all(|b| *b == 0));
}

#[test]
fn error_messages() {
    assert_eq!(
        IfaceError::CreationFailed.message(),
        "interface creation failed"
    );
    assert_eq!(
        IfaceError::NameHasNul.message(),
        "interface name holds a null byte"
    );
    assert_eq!(
        IfaceError::BufferTooLarge.message(),
        "buffer exceeds the largest single transfer"
    );
    assert_eq!(
        IfaceError::NotOpen.message(),
        "handle no longer owns a descriptor"
    );
    assert_eq!(
        IfaceError::Io { errno: 1 }.message(),
        "interface I/O failed"
    );
}
