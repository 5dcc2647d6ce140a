//! The bandwidth probe: how the payload is cut into frames, and the turns
//! of the client and of the server.

use vstd::prelude::*;
use crate::protocol::{Message, MessageView};

verus! {

/// Payload size of a speed test unless told otherwise (10 MiB).
pub const DEFAULT_SPEEDTEST_SIZE: u64 = 10485760;

/// Payload bytes in one data frame (64 KiB).
pub const SPEEDTEST_CHUNK_SIZE: usize = 65536;

/// Round trips measured for the latency estimate.
pub const PING_COUNT: u32 = 5;

/// Length of the next data frame when `sent` of `size` bytes are out:
/// a full frame while that much is left, the rest otherwise, 0 at the end.
pub open spec fn next_frame_spec(size: u64, sent: u64) -> int {
    if sent >= size {
        0
    } else if size - sent >= SPEEDTEST_CHUNK_SIZE {
        SPEEDTEST_CHUNK_SIZE as int
    } else {
        size - sent
    }
}

/// Length of the next data frame; 0 when the payload is out and the end
/// marker is due.
pub fn next_frame_len(size: u64, sent: u64) -> (n: usize)
    ensures
        n == next_frame_spec(size, sent),
        n <= SPEEDTEST_CHUNK_SIZE,
        sent < size ==> 0 < n && sent + n <= size,
{
    if sent >= size {
        0
    } else if size - sent >= SPEEDTEST_CHUNK_SIZE as u64 {
        SPEEDTEST_CHUNK_SIZE
    } else {
        (size - sent) as usize
    }
}

/// Number of data frames a payload of `size` bytes takes.
pub open spec fn frame_count_spec(size: u64) -> int {
    (size + SPEEDTEST_CHUNK_SIZE - 1) / (SPEEDTEST_CHUNK_SIZE as int)
}

/// Number of data frames a payload of `size` bytes takes.
pub fn frame_count(size: u64) -> (n: u64)
    ensures
        n == frame_count_spec(size),
{
    let full: u64 = size / (SPEEDTEST_CHUNK_SIZE as u64);
    if size % (SPEEDTEST_CHUNK_SIZE as u64) == 0 {
        full
    } else {
        full + 1
    }
}

/// Bytes sent after `k` frames of a payload of `size` bytes.
pub open spec fn sent_after(size: u64, k: nat) -> int
    decreases k,
{
    if k == 0 {
        0
    } else {
        sent_after(size, (k - 1) as nat) + next_frame_spec(
            size,
            sent_after(size, (k - 1) as nat) as u64,
        )
    }
}

/// The frames never overrun the payload, and after `frame_count` frames
/// the whole payload is out.
pub proof fn lemma_frames_add_up(size: u64, k: nat)
    ensures
        sent_after(size, k) == if k * SPEEDTEST_CHUNK_SIZE <= size {
            k * SPEEDTEST_CHUNK_SIZE
        } else {
            size as int
        },
        0 <= sent_after(size, k) <= size,
        k >= frame_count_spec(size) ==> sent_after(size, k) == size,
    decreases k,
{
    if k > 0 {
        lemma_frames_add_up(size, (k - 1) as nat);
        assert((k - 1) * SPEEDTEST_CHUNK_SIZE + SPEEDTEST_CHUNK_SIZE == k * SPEEDTEST_CHUNK_SIZE)
            by (nonlinear_arith);
    }
    assert(k >= frame_count_spec(size) ==> k * SPEEDTEST_CHUNK_SIZE >= size) by (nonlinear_arith)
        requires
            frame_count_spec(size) == (size + 65536 - 1) / 65536,
            SPEEDTEST_CHUNK_SIZE == 65536,
    ;
}

/// A data frame of `len` bytes, each of value `fill`.
pub fn data_frame(len: usize, fill: u8) -> (m: Message)
    ensures
        m@ == (MessageView::SpeedTestData { data: Seq::new(len as nat, |i: int| fill) }),
{
    let mut data: Vec<u8> = Vec::new();
    let mut i: usize = 0;
    while i < len
        invariant
            i <= len,
            data@ == Seq::new(i as nat, |j: int| fill),
        decreases len - i,
    {
        data.push(fill);
        i += 1;
        proof {
            assert(data@ =~= Seq::new(i as nat, |j: int| fill));
        }
    }
    Message::SpeedTestData { data }
}

/// Progress of one direction in percent.
pub fn progress_percent(sent: u64, size: u64) -> (p: u8)
    ensures
        p <= 100,
        size > 0 && sent <= size ==> p == sent as int * 100 / (size as int),
        size == 0 || sent > size ==> p == 100,
{
    if size == 0 || sent > size {
        return 100;
    }
    let p: u128 = sent as u128 * 100 / (size as u128);
    assert(p <= 100) by (nonlinear_arith)
        requires
            p == sent as int * 100 / (size as int),
            sent <= size,
            size > 0,
    ;
    p as u8
}

/// The estimate of the round-trip time: the mean of the samples, in the
/// unit of the samples, rounded down; 0 without samples.
pub open spec fn sum_of(samples: Seq<u64>) -> int
    decreases samples.len(),
{
    if samples.len() == 0 {
        0
    } else {
        sum_of(samples.drop_last()) + samples.last()
    }
}

proof fn lemma_sum_bound(samples: Seq<u64>)
    ensures
        0 <= sum_of(samples) <= samples.len() * u64::MAX,
    decreases samples.len(),
{
    if samples.len() > 0 {
        lemma_sum_bound(samples.drop_last());
        assert((samples.len() - 1) * u64::MAX + u64::MAX == samples.len() * u64::MAX)
            by (nonlinear_arith);
    }
}

/// Mean round-trip time of the samples.
pub fn mean_latency(samples: &[u64]) -> (m: u64)
    ensures
        m == if samples@.len() == 0 {
            0
        } else {
            sum_of(samples@) / (samples@.len() as int)
        },
{
    if samples.len() == 0 {
        return 0;
    }
    let mut total: u128 = 0;
    let mut i: usize = 0;
    proof {
        assert(samples@.take(0) =~= Seq::<u64>::empty());
    }
    while i < samples.len()
        invariant
            i <= samples.len(),
            total == sum_of(samples@.take(i as int)),
            total <= i * u64::MAX,
        decreases samples.len() - i,
    {
        proof {
            assert(samples@.take(i + 1).drop_last() =~= samples@.take(i as int));
            lemma_sum_bound(samples@.take(i + 1));
            assert((i + 1) * u64::MAX <= usize::MAX * u64::MAX) by (nonlinear_arith)
                requires
                    i + 1 <= usize::MAX,
            ;
            assert(usize::MAX * u64::MAX <= u64::MAX * u64::MAX) by (nonlinear_arith);
        }
        total = total + samples[i] as u128;
        i += 1;
    }
    proof {
        assert(samples@.take(samples@.len() as int) =~= samples@);
        lemma_sum_bound(samples@);
        assert(sum_of(samples@) / (samples@.len() as int) <= u64::MAX) by (nonlinear_arith)
            requires
                0 <= sum_of(samples@) <= samples@.len() * u64::MAX,
                samples@.len() > 0,
        ;
    }
    (total / (samples.len() as u128)) as u64
}

/// Turn of the server side of a speed test.
#[derive(Clone, Copy, Debug, PartialEq, Eq, Structural)]
pub enum ServerPhase {
    /// Taking in the client's upload.
    Draining,
    /// The download is out; the client's last acknowledgement is awaited.
    AwaitFinalAck,
    /// The test is over in good order.
    Finished,
    /// The test broke off on a message that is not legal in its phase.
    Failed,
}

/// What the server does with a message.
#[derive(Clone, Copy, Debug, PartialEq, Eq, Structural)]
pub enum ServerAction {
    /// Drop the data and read on.
    Discard,
    /// Acknowledge the upload, then send the download and its end marker.
    AckThenSend,
    /// Nothing more to do.
    Finish,
    /// Report a protocol error.
    Fail,
}

pub open spec fn server_step_spec(phase: ServerPhase, msg: MessageView) -> (ServerPhase, ServerAction) {
    match phase {
        ServerPhase::Draining => match msg {
            MessageView::SpeedTestData { .. } => (ServerPhase::Draining, ServerAction::Discard),
            MessageView::SpeedTestEnd => (ServerPhase::AwaitFinalAck, ServerAction::AckThenSend),
            _ => (ServerPhase::Failed, ServerAction::Fail),
        },
        ServerPhase::AwaitFinalAck => (ServerPhase::Finished, ServerAction::Finish),
        ServerPhase::Finished => (ServerPhase::Finished, ServerAction::Finish),
        ServerPhase::Failed => (ServerPhase::Failed, ServerAction::Fail),
    }
}

/// One turn of the server: it starts in `Draining`, right after it has
/// answered the request with a ready message.
pub fn server_step(phase: ServerPhase, msg: &Message) -> (r: (ServerPhase, ServerAction))
    ensures
        r == server_step_spec(phase, msg@),
{
    match phase {
        ServerPhase::Draining => match msg {
            Message::SpeedTestData { .. } => (ServerPhase::Draining, ServerAction::Discard),
            Message::SpeedTestEnd => (ServerPhase::AwaitFinalAck, ServerAction::AckThenSend),
            _ => (ServerPhase::Failed, ServerAction::Fail),
        },
        ServerPhase::AwaitFinalAck => (ServerPhase::Finished, ServerAction::Finish),
        ServerPhase::Finished => (ServerPhase::Finished, ServerAction::Finish),
        ServerPhase::Failed => (ServerPhase::Failed, ServerAction::Fail),
    }
}

/// Turn of the client side of a speed test.
#[derive(Clone, Copy, Debug, PartialEq, Eq, Structural)]
pub enum ClientPhase {
    /// Measuring round trips; the number of replies still awaited.
    Pinging(u32),
    /// The request is out; the ready message is awaited.
    AwaitReady,
    /// The upload is out; its acknowledgement is awaited.
    AwaitUploadAck,
    /// Taking in the download.
    Downloading,
    /// The test is over in good order.
    Finished,
    /// The test broke off on a message that is not legal in its phase.
    Failed,
}

/// What the client does with a message.
#[derive(Clone, Copy, Debug, PartialEq, Eq, Structural)]
pub enum ClientAction {
    /// Note the round trip and send the next ping.
    NextPing,
    /// Note the round trip and send the request.
    SendRequest,
    /// Send the upload and its end marker.
    Upload,
    /// Start timing the download.
    BeginDownload,
    /// Count the bytes of the frame.
    Count,
    /// Acknowledge the download and report the result.
    AckAndReport,
    /// Report a protocol error.
    Fail,
    /// Nothing: the test is over.
    Ignore,
}

pub open spec fn client_step_spec(phase: ClientPhase, msg: MessageView) -> (ClientPhase, ClientAction) {
    match phase {
        ClientPhase::Pinging(left) => match msg {
            MessageView::Ack => if left > 1 {
                (ClientPhase::Pinging((left - 1) as u32), ClientAction::NextPing)
            } else {
                (ClientPhase::AwaitReady, ClientAction::SendRequest)
            },
            _ => (ClientPhase::Failed, ClientAction::Fail),
        },
        ClientPhase::AwaitReady => match msg {
            MessageView::SpeedTestReady => (ClientPhase::AwaitUploadAck, ClientAction::Upload),
            _ => (ClientPhase::Failed, ClientAction::Fail),
        },
        ClientPhase::AwaitUploadAck => match msg {
            MessageView::Ack => (ClientPhase::Downloading, ClientAction::BeginDownload),
            _ => (ClientPhase::Failed, ClientAction::Fail),
        },
        ClientPhase::Downloading => match msg {
            MessageView::SpeedTestData { .. } => (ClientPhase::Downloading, ClientAction::Count),
            MessageView::SpeedTestEnd => (ClientPhase::Finished, ClientAction::AckAndReport),
            _ => (ClientPhase::Failed, ClientAction::Fail),
        },
        ClientPhase::Finished => (ClientPhase::Finished, ClientAction::Ignore),
        ClientPhase::Failed => (ClientPhase::Failed, ClientAction::Ignore),
    }
}

/// One turn of the client: it starts in `Pinging(PING_COUNT)`, right after
/// it has sent its first ping.
pub fn client_step(phase: ClientPhase, msg: &Message) -> (r: (ClientPhase, ClientAction))
    ensures
        r == client_step_spec(phase, msg@),
{
    match phase {
        ClientPhase::Pinging(left) => match msg {
            Message::Ack => if left > 1 {
                (ClientPhase::Pinging(left - 1), ClientAction::NextPing)
            } else {
                (ClientPhase::AwaitReady, ClientAction::SendRequest)
            },
            _ => (ClientPhase::Failed, ClientAction::Fail),
        },
        ClientPhase::AwaitReady => match msg {
            Message::SpeedTestReady => (ClientPhase::AwaitUploadAck, ClientAction::Upload),
            _ => (ClientPhase::Failed, ClientAction::Fail),
        },
        ClientPhase::AwaitUploadAck => match msg {
            Message::Ack => (ClientPhase::Downloading, ClientAction::BeginDownload),
            _ => (ClientPhase::Failed, ClientAction::Fail),
        },
        ClientPhase::Downloading => match msg {
            Message::SpeedTestData { .. } => (ClientPhase::Downloading, ClientAction::Count),
            Message::SpeedTestEnd => (ClientPhase::Finished, ClientAction::AckAndReport),
            _ => (ClientPhase::Failed, ClientAction::Fail),
        },
        ClientPhase::Finished => (ClientPhase::Finished, ClientAction::Ignore),
        ClientPhase::Failed => (ClientPhase::Failed, ClientAction::Ignore),
    }
}

} // verus!
