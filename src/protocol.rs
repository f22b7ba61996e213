//! The message set exchanged over the local channel and the on-wire framing:
//! a 4-byte little-endian length followed by that many payload bytes.
use vstd::prelude::*;

verus! {

/// The largest payload a frame may declare: 10 MiB.
pub const MAX_FRAME_LEN: usize = 10 * 1024 * 1024;

/// A request from a client to the daemon.
pub enum IpcCommand {
    StartClash {
        core_path: String,
        config_path: String,
        data_dir: String,
        /// Empty disables the control API.
        external_controller: String,
    },
    StopClash,
    GetStatus,
    GetLogs { lines: usize },
    StreamLogs,
    GetVersion,
    Heartbeat,
}

/// The daemon's answer to exactly one command.
#[allow(inconsistent_fields)]
pub enum IpcResponse {
    Success { message: Option<String> },
    /// A well-formed frame carrying an application-level failure.
    Error { code: i32, message: String },
    Status { clash_running: bool, clash_pid: Option<u32>, service_uptime: u64 },
    Logs { lines: Vec<String> },
    LogStream { line: String },
    Version { version: String },
    HeartbeatAck,
}

/// Why a byte buffer does not yield a frame.
#[derive(PartialEq, Eq, Structural, Clone, Copy, Debug)]
pub enum FrameError {
    /// More bytes are needed.
    Incomplete,
    /// The frame declares (or would need) a payload longer than `MAX_FRAME_LEN`.
    TooLarge { len: u64 },
}

/// The unsigned integer that the four bytes `b` encode, least significant first.
pub open spec fn le_u32(b: Seq<u8>) -> nat
    recommends
        b.len() == 4,
{
    b[0] as nat + 256 * b[1] as nat + 65536 * b[2] as nat + 16777216 * b[3] as nat
}

/// The four little-endian bytes of `n`.
pub open spec fn le_bytes(n: nat) -> Seq<u8> {
    seq![
        (n % 256) as u8,
        ((n / 256) % 256) as u8,
        ((n / 65536) % 256) as u8,
        ((n / 16777216) % 256) as u8,
    ]
}

/// The frame that carries `payload`.
pub open spec fn frame_of(payload: Seq<u8>) -> Seq<u8> {
    le_bytes(payload.len()) + payload
}

/// Reads the payload length that a frame header declares.
pub fn header_len(b0: u8, b1: u8, b2: u8, b3: u8) -> (r: u32)
    ensures
        r as nat == le_u32(seq![b0, b1, b2, b3]),
{
    b0 as u32 + 256 * (b1 as u32) + 65536 * (b2 as u32) + 16777216 * (b3 as u32)
}

/// Frames `payload`: its length as four little-endian bytes, then the payload.
pub fn encode_frame(payload: &[u8]) -> (r: Result<Vec<u8>, FrameError>)
    ensures
        payload@.len() > MAX_FRAME_LEN ==> r == Err::<Vec<u8>, FrameError>(
            FrameError::TooLarge { len: payload@.len() as u64 },
        ),
        payload@.len() <= MAX_FRAME_LEN ==> r is Ok && r->Ok_0@ == frame_of(payload@),
{
    let n = payload.len();
    if n > MAX_FRAME_LEN {
        return Err(FrameError::TooLarge { len: n as u64 });
    }
    let mut out: Vec<u8> = Vec::with_capacity(n + 4);
    out.push((n % 256) as u8);
    out.push(((n / 256) % 256) as u8);
    out.push(((n / 65536) % 256) as u8);
    out.push(((n / 16777216) % 256) as u8);
    let mut i: usize = 0;
    while i < n
        invariant
            n == payload@.len(),
            i <= n,
            out@ == le_bytes(n as nat) + payload@.subrange(0, i as int),
        decreases n - i,
    {
        out.push(payload[i]);
        i = i + 1;
        proof {
            assert(payload@.subrange(0, i as int) =~= payload@.subrange(0, i - 1).push(
                payload@[i - 1],
            ));
        }
    }
    proof {
        assert(payload@.subrange(0, n as int) =~= payload@);
    }
    Ok(out)
}

/// Checks the length a frame header declares against `MAX_FRAME_LEN`; the
/// caller allocates the payload buffer only after this succeeds.
pub fn check_frame_len(declared: u32) -> (r: Result<usize, FrameError>)
    ensures
        declared > MAX_FRAME_LEN ==> r == Err::<usize, FrameError>(
            FrameError::TooLarge { len: declared as u64 },
        ),
        declared <= MAX_FRAME_LEN ==> r == Ok::<usize, FrameError>(declared as usize),
{
    if declared as u64 > MAX_FRAME_LEN as u64 {
        Err(FrameError::TooLarge { len: declared as u64 })
    } else {
        Ok(declared as usize)
    }
}

/// Takes one frame from the front of `buf`: its payload and the number of
/// bytes it occupies. An oversized declaration is refused as soon as the
/// header is read, whatever follows it.
pub fn decode_frame(buf: &[u8]) -> (r: Result<(Vec<u8>, usize), FrameError>)
    ensures
        buf@.len() < 4 ==> r == Err::<(Vec<u8>, usize), FrameError>(FrameError::Incomplete),
        buf@.len() >= 4 && le_u32(buf@.subrange(0, 4)) > MAX_FRAME_LEN ==> r == Err::<
            (Vec<u8>, usize),
            FrameError,
        >(FrameError::TooLarge { len: le_u32(buf@.subrange(0, 4)) as u64 }),
        buf@.len() >= 4 && le_u32(buf@.subrange(0, 4)) <= MAX_FRAME_LEN && buf@.len() < 4
            + le_u32(buf@.subrange(0, 4)) ==> r == Err::<(Vec<u8>, usize), FrameError>(
            FrameError::Incomplete,
        ),
        buf@.len() >= 4 && le_u32(buf@.subrange(0, 4)) <= MAX_FRAME_LEN && buf@.len() >= 4
            + le_u32(buf@.subrange(0, 4)) ==> r is Ok && r->Ok_0.0@ == buf@.subrange(
            4,
            4 + le_u32(buf@.subrange(0, 4)) as int,
        ) && r->Ok_0.1 == 4 + le_u32(buf@.subrange(0, 4)),
{
    if buf.len() < 4 {
        return Err(FrameError::Incomplete);
    }
    let declared = header_len(buf[0], buf[1], buf[2], buf[3]);
    proof {
        assert(buf@.subrange(0, 4) =~= seq![buf@[0], buf@[1], buf@[2], buf@[3]]);
    }
    let n = match check_frame_len(declared) {
        Ok(n) => n,
        Err(e) => return Err(e),
    };
    if buf.len() - 4 < n {
        return Err(FrameError::Incomplete);
    }
    let mut payload: Vec<u8> = Vec::with_capacity(n);
    let mut i: usize = 0;
    while i < n
        invariant
            n + 4 <= buf@.len(),
            buf@.len() == buf.len(),
            i <= n,
            payload@ == buf@.subrange(4, 4 + i),
        decreases n - i,
    {
        payload.push(buf[4 + i]);
        i = i + 1;
        proof {
            assert(buf@.subrange(4, 4 + i) =~= buf@.subrange(4, 4 + i - 1).push(buf@[4 + i - 1]));
        }
    }
    Ok((payload, n + 4))
}

/// Decoding the frame of a payload gives back that payload, and the whole
/// frame is consumed.
pub proof fn lemma_frame_round_trip(payload: Seq<u8>)
    requires
        payload.len() <= MAX_FRAME_LEN,
    ensures
        frame_of(payload).len() == 4 + payload.len(),
        le_u32(frame_of(payload).subrange(0, 4)) == payload.len(),
        frame_of(payload).subrange(4, 4 + payload.len() as int) == payload,
{
    let f = frame_of(payload);
    let n = payload.len();
    assert(f.subrange(4, 4 + n as int) =~= payload);
    assert(f.subrange(0, 4) =~= le_bytes(n));
    assert(le_u32(f.subrange(0, 4)) == n) by (nonlinear_arith)
        requires
            f.subrange(0, 4) == le_bytes(n),
            n <= MAX_FRAME_LEN,
    {
    }
}

} // verus!
