//! The executor that runs a target through an AFL++ forkserver: what it
//! decides at the handshake and in each execution, and the bookkeeping
//! behind those decisions. Spawning the target, the pipes, the sockets and
//! the shared memory are the caller's part; the executor tells the caller
//! what to do next and takes back what came of it.

use vstd::prelude::*;
use crate::error::create_timeout_error;
use crate::error::Error;
use crate::error::ErrorKind;
use crate::error::ErrorView;
use crate::replay::CollectorView;
use crate::replay::RequestResponseCollector;
use crate::state::InnerState;
use crate::state::LibAFLStarState;
use crate::trusted::sigterm;
use crate::trusted::unique_std_input_file;
use crate::trusted::status_is_signaled;
use crate::trusted::status_is_stopped;
use crate::trusted::wifsignaled;
use crate::trusted::wifstopped;

verus! {

/// The file descriptor at which the target expects the read end of the
/// control pipe; the write end of the status pipe is the next one.
pub const FORKSRV_FD: i32 = 198;

/// The bits of a status word that say that the forkserver offers options
/// (bit pattern `0x80000001`).
pub const FS_OPT_ENABLED: i32 = -2147483647;

/// The bit of a status word that says that it carries the size of the
/// coverage map.
pub const FS_OPT_MAPSIZE: i32 = 0x40000000;

/// The bit of a status word for inputs in shared memory.
pub const FS_OPT_SHDMEM_FUZZ: i32 = 0x01000000;

/// The bit of a status word for the dictionary that the target brings.
pub const FS_OPT_AUTODICT: i32 = 0x10000000;

/// The number of bytes at the start of the shared input memory that hold
/// the length of the input.
pub const SHMEM_FUZZ_HDR_SIZE: usize = 4;

/// The largest input that is handed over in shared memory, unless set
/// otherwise.
pub const MAX_INPUT_SIZE_DEFAULT: usize = 1048576;

/// Whether a status word has all bits of a flag set.
pub open spec fn has_flag(status: i32, flag: i32) -> bool {
    status & flag == flag
}

/// Tells whether a status word has all bits of a flag set.
pub fn flag_is_set(status: i32, flag: i32) -> (r: bool)
    ensures
        r == has_flag(status, flag),
{
    status & flag == flag
}

/// The size of the coverage map that a status word carries.
pub open spec fn mapsize_of(x: i32) -> int {
    ((x & 0x00fffffe) >> 1) + 1
}

/// The size of the coverage map that a status word carries: the bits 1 to
/// 23 of the word as a number, plus one.
pub fn fs_opt_get_mapsize(x: i32) -> (r: i32)
    ensures
        r == mapsize_of(x),
        1 <= r <= 0x800000,
{
    assert(0 <= ((x & 0x00fffffe) >> 1) <= 0x7fffff) by (bit_vector);
    ((x & 0x00fffffe) >> 1) + 1
}

/// A map size rounded up to the next multiple of 64.
pub open spec fn rounded_map_size(map_size: int) -> int {
    if map_size % 64 != 0 {
        (map_size / 64 + 1) * 64
    } else {
        map_size
    }
}

/// Rounds the map size that the forkserver reported up to a multiple of 64.
pub fn round_up_map_size(map_size: i32) -> (r: i32)
    requires
        1 <= map_size <= 0x800000,
    ensures
        r == rounded_map_size(map_size as int),
        r % 64 == 0,
        map_size <= r < map_size + 64,
{
    if map_size % 64 != 0 {
        let sum: i32 = map_size + 63;
        assert(0 <= sum <= 0x80003f ==> ((sum >> 6) << 6) == (sum / 64) * 64) by (bit_vector);
        (sum >> 6) << 6
    } else {
        map_size
    }
}

/// The size to which the coverage map is cut down, as a hello word gives it:
/// the size it carries, rounded up to a multiple of 64, where the word says
/// that options are offered and that it carries a size.
pub open spec fn reported_map_size(status: i32) -> Option<usize> {
    if has_flag(status, FS_OPT_ENABLED) && has_flag(status, FS_OPT_MAPSIZE) {
        Some(rounded_map_size(mapsize_of(status)) as usize)
    } else {
        None
    }
}

/// The word that tells the forkserver which of the options it offers are
/// taken: inputs in shared memory where it offers them and there is shared
/// memory for them, its dictionary where it offers one and there is a store
/// for tokens. `None` where nothing is to be sent: where it offers neither,
/// or none is taken.
pub open spec fn acknowledgement(status: i32, has_map: bool, has_autotokens: bool) -> Option<i32> {
    let shmem = has_flag(status, FS_OPT_SHDMEM_FUZZ) && has_map;
    let autodict = has_flag(status, FS_OPT_AUTODICT) && has_autotokens;
    if has_flag(status, FS_OPT_ENABLED) && (shmem || autodict) {
        Some(
            FS_OPT_ENABLED | (if shmem {
                FS_OPT_SHDMEM_FUZZ
            } else {
                0i32
            }) | (if autodict {
                FS_OPT_AUTODICT
            } else {
                0i32
            }),
        )
    } else {
        None
    }
}

/// How the input reaches the target.
#[non_exhaustive]
#[derive(Debug, Clone, Copy, PartialEq, Eq, Structural)]
pub enum InputMode {
    /// In the file that the target reads as its standard input.
    Stdin,
    /// In shared memory.
    Shmem,
    /// Over a connection that the target opens to the given port.
    SocketServer(u16),
    /// Over a connection that is opened to the target at the given port.
    SocketClient(u16),
}

impl InputMode {
    /// Whether the input goes over a socket.
    pub open spec fn is_socket(self) -> bool {
        self is SocketServer || self is SocketClient
    }

    /// Tells whether the input goes over a socket.
    pub fn uses_socket(&self) -> (r: bool)
        ensures
            r == self.is_socket(),
    {
        match self {
            InputMode::SocketServer(_) => true,
            InputMode::SocketClient(_) => true,
            _ => false,
        }
    }
}

/// The four bytes that say, at the start of the shared input memory, how
/// long the input is: the length in little-endian order, and of a length
/// that does not fit into four bytes the low four.
pub open spec fn length_header(size: int) -> Seq<u8> {
    seq![
        (size % 256) as u8,
        (size / 256 % 256) as u8,
        (size / 65536 % 256) as u8,
        (size / 16777216 % 256) as u8,
    ]
}

/// How many bytes of an input fit into shared memory of the given length,
/// after the header.
pub open spec fn delivered_len(input_len: int, map_len: int) -> int {
    if input_len > map_len - SHMEM_FUZZ_HDR_SIZE {
        map_len - SHMEM_FUZZ_HDR_SIZE
    } else {
        input_len
    }
}

/// What is written into shared input memory of the given length for an
/// input: the header with the length of what follows, and the input, cut
/// off where the memory ends.
pub open spec fn envelope(input: Seq<u8>, map_len: int) -> Seq<u8> {
    length_header(delivered_len(input.len() as int, map_len)) + input.take(
        delivered_len(input.len() as int, map_len),
    )
}

/// The bytes to write at the start of shared input memory of `map_len`
/// bytes to hand over `input`: the length of what is handed over, and the
/// input itself, truncated to what the memory holds after the header.
pub fn shmem_envelope(input: &[u8], map_len: usize) -> (r: Vec<u8>)
    requires
        map_len >= SHMEM_FUZZ_HDR_SIZE,
    ensures
        r@ == envelope(input@, map_len as int),
        r@.len() <= map_len,
        r@.subrange(4, r@.len() as int) == input@.take(r@.len() - 4),
{
    let mut size: usize = input.len();
    let max_size: usize = map_len - SHMEM_FUZZ_HDR_SIZE;
    if size > max_size {
        size = max_size;
    }
    let mut out: Vec<u8> = Vec::new();
    out.push((size % 256) as u8);
    out.push((size / 256 % 256) as u8);
    out.push((size / 65536 % 256) as u8);
    out.push((size / 16777216 % 256) as u8);
    let mut i: usize = 0;
    while i < size
        invariant
            i <= size <= input@.len(),
            out@ == length_header(size as int) + input@.take(i as int),
        decreases size - i,
    {
        out.push(input[i]);
        assert(input@.take(i + 1) == input@.take(i as int).push(input@[i as int]));
        i = i + 1;
    }
    assert(out@.subrange(4, out@.len() as int) =~= input@.take(out@.len() - 4));
    out
}

/// The limit on the memory of the target in bytes, for a limit given in
/// mebibytes: none for 0, and else the limit times 2 to the 20th, of which
/// the low 64 bits count.
pub open spec fn memory_limit(memlimit: u64) -> Option<u64> {
    if memlimit == 0 {
        None
    } else {
        Some(((memlimit * 1048576) % 0x1_0000_0000_0000_0000) as u64)
    }
}

/// The limit on the memory of the target in bytes, if there is to be one.
pub fn memory_limit_bytes(memlimit: u64) -> (r: Option<u64>)
    ensures
        r == memory_limit(memlimit),
{
    if memlimit == 0 {
        None
    } else {
        assert((memlimit << 20) == ((memlimit * 1048576) % 0x1_0000_0000_0000_0000) as u64)
            by (bit_vector);
        Some(memlimit << 20)
    }
}

/// The forkserver's side of the books as contracts speak of it.
pub ghost struct ForkserverView {
    /// The process that the forkserver forked for the current execution.
    pub child_pid: Option<i32>,
    /// The last status that the forkserver reported.
    pub status: i32,
    /// Whether the last execution ran out of time, as the word that is
    /// written to the forkserver: not 0 if it did.
    pub last_run_timed_out: i32,
    /// The number of the signal that ends a child that ran out of time.
    pub kill_signal: i32,
}

/// What is known about the forkserver between two executions. The process
/// itself and its pipes are with the caller.
#[derive(Debug)]
pub struct Forkserver {
    child_pid: Option<i32>,
    status: i32,
    last_run_timed_out: i32,
    kill_signal: i32,
}

impl View for Forkserver {
    type V = ForkserverView;

    closed spec fn view(&self) -> ForkserverView {
        ForkserverView {
            child_pid: self.child_pid,
            status: self.status,
            last_run_timed_out: self.last_run_timed_out,
            kill_signal: self.kill_signal,
        }
    }
}

/// The variables of the environment that a forkserver is started with, in
/// the order in which they are set: the mark of persistent mode and that of
/// the deferred forkserver where they are asked for, `LD_BIND_NOW`, and
/// then what the caller added.
pub open spec fn spawn_environment(
    is_persistent: bool,
    is_deferred_frksrv: bool,
    envs: Seq<(Seq<char>, Seq<char>)>,
) -> Seq<(Seq<char>, Seq<char>)> {
    (if is_persistent {
        seq![("__AFL_PERSISTENT"@, "1"@)]
    } else {
        Seq::empty()
    }) + (if is_deferred_frksrv {
        seq![("__AFL_DEFER_FORKSRV"@, "1"@)]
    } else {
        Seq::empty()
    }) + seq![("LD_BIND_NOW"@, "1"@)] + envs
}

/// Puts together the environment that a forkserver is started with.
pub fn forkserver_environment(
    is_persistent: bool,
    is_deferred_frksrv: bool,
    envs: Vec<(String, String)>,
) -> (r: Vec<(String, String)>)
    ensures
        pair_texts(r@) == spawn_environment(is_persistent, is_deferred_frksrv, pair_texts(envs@)),
{
    let mut out: Vec<(String, String)> = Vec::new();
    if is_persistent {
        out.push(("__AFL_PERSISTENT".to_owned(), "1".to_owned()));
    }
    if is_deferred_frksrv {
        out.push(("__AFL_DEFER_FORKSRV".to_owned(), "1".to_owned()));
    }
    out.push(("LD_BIND_NOW".to_owned(), "1".to_owned()));
    let ghost given = envs@;
    let mut envs = envs;
    out.append(&mut envs);
    assert(pair_texts(out@) =~= spawn_environment(
        is_persistent,
        is_deferred_frksrv,
        pair_texts(given),
    ));
    out
}

impl Forkserver {
    /// The books of a forkserver that was just started, with the default
    /// signal, `SIGTERM`, for children that run out of time.
    pub fn new() -> (r: Self)
        ensures
            r@ == (ForkserverView {
                child_pid: None,
                status: 0,
                last_run_timed_out: 0,
                kill_signal: 15,
            }),
    {
        Self::with_kill_signal(sigterm())
    }

    /// The books of a forkserver that was just started: no child yet, no
    /// status, no timeout.
    pub fn with_kill_signal(kill_signal: i32) -> (r: Self)
        ensures
            r@ == (ForkserverView {
                child_pid: None,
                status: 0,
                last_run_timed_out: 0,
                kill_signal,
            }),
    {
        Forkserver { child_pid: None, status: 0, last_run_timed_out: 0, kill_signal }
    }

    /// Whether the last run timed out, as the word for the forkserver.
    #[must_use]
    pub fn last_run_timed_out_raw(&self) -> (r: i32)
        ensures
            r == self@.last_run_timed_out,
    {
        self.last_run_timed_out
    }

    /// Whether the last run timed out.
    #[must_use]
    pub fn last_run_timed_out(&self) -> (r: bool)
        ensures
            r == (self@.last_run_timed_out != 0),
    {
        self.last_run_timed_out_raw() != 0
    }

    /// Sets whether the last run timed out, as the word for the forkserver.
    pub fn set_last_run_timed_out_raw(&mut self, last_run_timed_out: i32)
        ensures
            final(self)@ == (ForkserverView { last_run_timed_out, ..old(self)@ }),
    {
        self.last_run_timed_out = last_run_timed_out;
    }

    /// Sets whether the last run timed out: the word is 1 if it did, else 0.
    pub fn set_last_run_timed_out(&mut self, last_run_timed_out: bool)
        ensures
            final(self)@ == (ForkserverView {
                last_run_timed_out: if last_run_timed_out {
                    1i32
                } else {
                    0i32
                },
                ..old(self)@
            }),
    {
        self.last_run_timed_out = if last_run_timed_out {
            1
        } else {
            0
        };
    }

    /// The last status that the forkserver reported.
    #[must_use]
    pub fn status(&self) -> (r: i32)
        ensures
            r == self@.status,
    {
        self.status
    }

    /// Sets the status.
    pub fn set_status(&mut self, status: i32)
        ensures
            final(self)@ == (ForkserverView { status, ..old(self)@ }),
    {
        self.status = status;
    }

    /// The process of the current child, if there is one.
    #[must_use]
    pub fn child_pid(&self) -> (r: Option<i32>)
        ensures
            r == self@.child_pid,
    {
        self.child_pid
    }

    /// Sets the process of the current child.
    pub fn set_child_pid(&mut self, child_pid: i32)
        ensures
            final(self)@ == (ForkserverView { child_pid: Some(child_pid), ..old(self)@ }),
    {
        self.child_pid = Some(child_pid);
    }

    /// Forgets the child.
    pub fn reset_child_pid(&mut self)
        ensures
            final(self)@ == (ForkserverView { child_pid: None, ..old(self)@ }),
    {
        self.child_pid = None;
    }

    /// The number of the signal that ends a child that ran out of time.
    pub fn kill_signal(&self) -> (r: i32)
        ensures
            r == self@.kill_signal,
    {
        self.kill_signal
    }

    /// The child to end when the forkserver is given up, with the signal
    /// for it, if there is a child. The forkserver itself gets the same
    /// signal afterwards.
    pub fn child_to_end(&self) -> (r: Option<(i32, i32)>)
        ensures
            r == (match self@.child_pid {
                Some(pid) => Some((pid, self@.kill_signal)),
                None => None,
            }),
    {
        match self.child_pid {
            Some(pid) => Some((pid, self.kill_signal)),
            None => None,
        }
    }

    /// Whether the forkserver has to be ended with `SIGKILL` when it is
    /// given up: it has to where the signal could not be delivered, or
    /// where waiting for its end failed after that.
    pub fn needs_sigkill(signal_delivered: bool, waited: bool) -> (r: bool)
        ensures
            r == (!signal_delivered || !waited),
    {
        !signal_delivered || !waited
    }

    /// What a read from the status pipe with a timeout comes to. `ready` is
    /// what waiting for the pipe returned, and `word` is what was then read,
    /// if the pipe was ready and four bytes could be read. Where the pipe
    /// was not ready in time, nothing; where it was, the word, and `Unknown`
    /// if it could not be read.
    pub fn read_st_timed(ready: i32, word: Option<i32>) -> (r: Result<Option<i32>, Error>)
        ensures
            ready <= 0 ==> r == Ok::<Option<i32>, Error>(None),
            ready > 0 && word is Some ==> r == Ok::<Option<i32>, Error>(word),
            ready > 0 && word is None ==> r is Err && r->Err_0@ == ErrorView::Unknown(
                "Unable to communicate with (read from) fork server (OOM?)"@,
            ),
    {
        if ready > 0 {
            match word {
                Some(val) => Ok(Some(val)),
                None => Err(
                    Error::unknown("Unable to communicate with (read from) fork server (OOM?)"),
                ),
            }
        } else {
            Ok(None)
        }
    }

    /// What a write to the control pipe with a timeout comes to. `ready` is
    /// what waiting for the pipe returned, and `written` the number of bytes
    /// that were then written, if the pipe was ready. Where the pipe was not
    /// ready in time, nothing.
    pub fn write_ctl_timed(ready: i32, written: Option<usize>) -> (r: Option<usize>)
        ensures
            r == (if ready > 0 {
                written
            } else {
                None
            }),
    {
        if ready > 0 {
            written
        } else {
            None
        }
    }
}

/// How often connecting to the target is tried before it is given up.
pub const CONNECT_RETRIES: usize = 20;

/// How long one attempt to connect may take, in milliseconds.
pub const CONNECT_TIMEOUT_MS: u64 = 1000;

/// How long the next attempt waits after the target refused, in
/// milliseconds.
pub const CONNECT_PAUSE_MS: u64 = 25;

/// How long a write to or a read from the target may take, in milliseconds.
pub const STREAM_TIMEOUT_MS: u64 = 2000;

/// The socket connector as contracts speak of it.
pub ghost struct SocketConnectorView {
    pub port: u16,
    /// Whether the connector holds the listening socket. It does not while
    /// a background task waits for a connection on it.
    pub has_listener: bool,
    /// Whether the connector holds a stream to the target.
    pub has_stream: bool,
    /// Whether a background task waits for a connection.
    pub listening: bool,
    /// How many attempts to connect were refused since connecting began.
    pub refused: usize,
}

/// What the fuzzer knows of its socket to the target. The connector works
/// as a server, to which the target connects, or as a client, which
/// connects to the target; the sockets themselves are with the caller.
#[derive(Debug)]
pub struct SocketConnector {
    port: u16,
    listener: bool,
    stream: bool,
    handle: bool,
    refused: usize,
}

impl View for SocketConnector {
    type V = SocketConnectorView;

    closed spec fn view(&self) -> SocketConnectorView {
        SocketConnectorView {
            port: self.port,
            has_listener: self.listener,
            has_stream: self.stream,
            listening: self.handle,
            refused: self.refused,
        }
    }
}

/// What the caller does for `serv_start`.
#[derive(Debug, Clone, Copy, PartialEq, Eq, Structural)]
pub struct ServStart {
    /// Shut the stream down and drop it.
    pub shutdown_stream: bool,
    /// Hand the listening socket to a background task that accepts one
    /// connection.
    pub listen: bool,
}

/// What the caller does for `serv_finish`.
#[derive(Debug, Clone, Copy, PartialEq, Eq, Structural)]
pub enum ServFinish {
    /// Wait for the background task, and take the listening socket and the
    /// accepted stream back from it.
    Join,
    /// Use the stream that is there.
    UseStream,
}

/// What came of an attempt to connect to the target.
#[derive(Debug, Clone, Copy, PartialEq, Eq, Structural)]
pub enum ConnectResult {
    Connected,
    /// The target refused the connection.
    Refused,
    /// The attempt failed otherwise.
    Failed,
}

/// What the caller does next to get a stream to the target.
#[derive(Debug)]
pub enum ConnectAction {
    /// Use the stream that is there.
    UseStream,
    /// Shut down and drop the old stream if told so, then try to connect,
    /// with `CONNECT_TIMEOUT_MS` for the attempt.
    Connect { shutdown_old: bool },
    /// Set `STREAM_TIMEOUT_MS` for writing and for reading on the new
    /// stream, keep it, and use it.
    Configure,
    /// Wait `CONNECT_PAUSE_MS`, then try to connect again.
    Retry,
    /// Wait `CONNECT_PAUSE_MS`, then give up with this error.
    GiveUp(Error),
    /// Give up with the error of the attempt.
    Propagate,
}

/// A connect action as contracts speak of it.
pub ghost enum ConnectActionView {
    UseStream,
    Connect { shutdown_old: bool },
    Configure,
    Retry,
    GiveUp(ErrorView),
    Propagate,
}

impl View for ConnectAction {
    type V = ConnectActionView;

    open spec fn view(&self) -> ConnectActionView {
        match *self {
            ConnectAction::UseStream => ConnectActionView::UseStream,
            ConnectAction::Connect { shutdown_old } => ConnectActionView::Connect { shutdown_old },
            ConnectAction::Configure => ConnectActionView::Configure,
            ConnectAction::Retry => ConnectActionView::Retry,
            ConnectAction::GiveUp(e) => ConnectActionView::GiveUp(e@),
            ConnectAction::Propagate => ConnectActionView::Propagate,
        }
    }
}

impl SocketConnector {
    /// A connector in server mode for a listening socket that the caller
    /// bound to the port on the local host. Only `serv_start` and
    /// `serv_finish` are for this mode, and they are called in turn,
    /// `serv_start` first.
    pub fn new_server(port: u16) -> (r: Self)
        ensures
            r@ == (SocketConnectorView {
                port,
                has_listener: true,
                has_stream: false,
                listening: false,
                refused: 0,
            }),
    {
        SocketConnector { port, listener: true, stream: false, handle: false, refused: 0 }
    }

    /// A connector in client mode. Only the `client_` functions are for
    /// this mode.
    pub fn new_client(port: u16) -> (r: Self)
        ensures
            r@ == (SocketConnectorView {
                port,
                has_listener: false,
                has_stream: false,
                listening: false,
                refused: 0,
            }),
    {
        SocketConnector { port, listener: false, stream: false, handle: false, refused: 0 }
    }

    /// The port of the target.
    pub fn port(&self) -> (r: u16)
        ensures
            r == self@.port,
    {
        self.port
    }

    /// Whether the connector holds the listening socket.
    pub fn has_listener(&self) -> (r: bool)
        ensures
            r == self@.has_listener,
    {
        self.listener
    }

    /// Whether the connector holds a stream.
    pub fn has_stream(&self) -> (r: bool)
        ensures
            r == self@.has_stream,
    {
        self.stream
    }

    /// Whether `serv_start` would begin to listen, given whether it is
    /// forced and whether the stream that is there reports an error.
    pub open spec fn will_listen(v: SocketConnectorView, force: bool, stream_broken: bool) -> bool {
        force || !v.has_stream || stream_broken
    }

    /// Hands the listening socket to a background task.
    fn serv_start_listening(&mut self)
        requires
            old(self)@.has_listener,
        ensures
            final(self)@ == (SocketConnectorView {
                has_listener: false,
                listening: true,
                ..old(self)@
            }),
    {
        self.listener = false;
        self.handle = true;
    }

    /// Makes ready for the target to connect. A stream that is there and
    /// reports no error is kept. Else, and in any case where `force` is
    /// set, the stream is shut down and a background task begins to wait
    /// for one new connection. `stream_broken` says whether the stream that
    /// is there reports an error. Not to be called again before
    /// `serv_finish` was.
    pub fn serv_start(&mut self, force: bool, stream_broken: bool) -> (r: ServStart)
        requires
            Self::will_listen(old(self)@, force, stream_broken) ==> old(self)@.has_listener,
        ensures
            r.listen == Self::will_listen(old(self)@, force, stream_broken),
            r.shutdown_stream == (r.listen && old(self)@.has_stream),
            !r.listen ==> final(self)@ == old(self)@,
            r.listen ==> final(self)@ == (SocketConnectorView {
                has_listener: false,
                has_stream: false,
                listening: true,
                ..old(self)@
            }),
    {
        if force {
            let had_stream = self.stream;
            self.stream = false;
            self.serv_start_listening();
            return ServStart { shutdown_stream: had_stream, listen: true };
        }
        if self.stream {
            if stream_broken {
                self.stream = false;
                self.serv_start_listening();
                ServStart { shutdown_stream: true, listen: true }
            } else {
                ServStart { shutdown_stream: false, listen: false }
            }
        } else {
            self.serv_start_listening();
            ServStart { shutdown_stream: false, listen: true }
        }
    }

    /// Gets the stream for this execution: the one that the background task
    /// accepted, if a task was started, else the one that is still there.
    /// Fails with `IllegalState` where there is neither.
    pub fn serv_finish(&mut self) -> (r: Result<ServFinish, Error>)
        ensures
            old(self)@.listening ==> r == Ok::<ServFinish, Error>(ServFinish::Join) && final(self)@
                == (SocketConnectorView {
                has_listener: true,
                has_stream: true,
                listening: false,
                ..old(self)@
            }),
            !old(self)@.listening ==> final(self)@ == old(self)@,
            !old(self)@.listening && old(self)@.has_stream ==> r == Ok::<ServFinish, Error>(
                ServFinish::UseStream,
            ),
            !old(self)@.listening && !old(self)@.has_stream ==> r is Err && r->Err_0@
                == ErrorView::IllegalState("Something went wrong"@),
    {
        if self.handle {
            self.handle = false;
            self.listener = true;
            self.stream = true;
            Ok(ServFinish::Join)
        } else {
            if self.stream {
                Ok(ServFinish::UseStream)
            } else {
                Err(Error::illegal_state("Something went wrong"))
            }
        }
    }

    /// Drops the stream, if there is one, and tells whether the caller has
    /// one to shut down.
    pub fn client_reset(&mut self) -> (r: bool)
        ensures
            r == old(self)@.has_stream,
            final(self)@ == (SocketConnectorView { has_stream: false, ..old(self)@ }),
    {
        let had_stream = self.stream;
        self.stream = false;
        had_stream
    }

    /// Begins to get a stream to the target. A stream that is there and
    /// reports no error is used. Else the stream is dropped and connecting
    /// begins. `stream_valid` says whether the stream that is there reports
    /// no error.
    pub fn client_connect(&mut self, stream_valid: bool) -> (r: ConnectAction)
        ensures
            old(self)@.has_stream && stream_valid ==> r@ == ConnectActionView::UseStream
                && final(self)@ == old(self)@,
            !(old(self)@.has_stream && stream_valid) ==> r@ == (ConnectActionView::Connect {
                shutdown_old: old(self)@.has_stream,
            }) && final(self)@ == (SocketConnectorView {
                has_stream: false,
                refused: 0,
                ..old(self)@
            }),
    {
        if self.stream && stream_valid {
            ConnectAction::UseStream
        } else {
            let had_stream = self.stream;
            self.stream = false;
            self.refused = 0;
            ConnectAction::Connect { shutdown_old: had_stream }
        }
    }

    /// Goes on after an attempt to connect. A connection is configured and
    /// used. After a refusal the next attempt follows a pause, and after
    /// the refusal of the last of `CONNECT_RETRIES` attempts connecting is
    /// given up with a timeout error. Any other failure is handed on at
    /// once.
    pub fn client_connected(&mut self, result: ConnectResult) -> (r: ConnectAction)
        ensures
            result is Connected ==> r@ == ConnectActionView::Configure && final(self)@ == (
            SocketConnectorView { has_stream: true, ..old(self)@ }),
            result is Failed ==> r@ == ConnectActionView::Propagate && final(self)@ == old(self)@,
            result is Refused ==> final(self)@ == (SocketConnectorView {
                refused: if old(self)@.refused < CONNECT_RETRIES {
                    (old(self)@.refused + 1) as usize
                } else {
                    old(self)@.refused
                },
                ..old(self)@
            }),
            result is Refused && old(self)@.refused + 1 < CONNECT_RETRIES ==> r@
                == ConnectActionView::Retry,
            result is Refused && old(self)@.refused + 1 >= CONNECT_RETRIES ==> r@
                == ConnectActionView::GiveUp(
                ErrorView::File(
                    ErrorKind::TimedOut,
                    "Could not connect to the target through the socket, retried 20 times."@,
                ),
            ),
    {
        match result {
            ConnectResult::Connected => {
                self.stream = true;
                ConnectAction::Configure
            },
            ConnectResult::Refused => {
                if self.refused < CONNECT_RETRIES {
                    self.refused = self.refused + 1;
                }
                if self.refused < CONNECT_RETRIES {
                    ConnectAction::Retry
                } else {
                    ConnectAction::GiveUp(
                        create_timeout_error(
                            "Could not connect to the target through the socket, retried 20 times.",
                        ),
                    )
                }
            },
            ConnectResult::Failed => ConnectAction::Propagate,
        }
    }
}

/// How an execution of the target ended.
#[derive(Debug, Clone, Copy, PartialEq, Eq, Structural)]
pub enum ExitKind {
    /// The target ran to its end.
    Okay,
    /// The target was ended by a signal.
    Crash,
    /// The target ran out of memory.
    Oom,
    /// The target did not finish in time.
    Timeout,
    /// Two executions that should agree did not.
    Diff,
}

/// Where an execution stands.
#[derive(Debug, Clone, Copy, PartialEq, Eq, Structural)]
pub enum RunPhase {
    /// No execution is under way.
    Idle,
    /// The input is being delivered and the control word written.
    AwaitCtl,
    /// The identifier of the child is being read.
    AwaitPid,
    /// The input is being sent over the socket.
    AwaitSend,
    /// The exit status is being read.
    AwaitStatus,
    /// The child ran out of time and is being ended.
    AwaitStatusAfterKill,
    /// The request and the response are being recorded.
    AwaitRecord,
}

/// How the caller gets the input ready before the child is asked for.
#[derive(Debug, Clone, Copy, PartialEq, Eq, Structural)]
pub enum Delivery {
    /// Write the input to the file that the target reads as standard input.
    Stdin,
    /// Write the envelope of the input, see [`shmem_envelope`], to the
    /// start of the shared input memory of the given length.
    Shmem { map_len: usize },
    /// Call `serv_start` on the connector; the input is sent once the child
    /// runs.
    ServStart { force: bool },
    /// Call `client_reset` on the connector and shut the old stream down:
    /// it led to a child that is gone.
    ClientReset,
    /// Nothing yet: the stream to the child is still good.
    ClientKeep,
}

/// What came of the step that the caller was told to do.
#[derive(Debug, Clone, Copy, PartialEq, Eq, Structural)]
pub enum RunEvent {
    /// The control word was written: how many bytes went out, or nothing
    /// where the pipe was not ready in time.
    CtlWritten(Option<usize>),
    /// The identifier of the child was read, or nothing in time.
    PidRead(Option<i32>),
    /// The input was sent over the socket.
    RequestSent,
    /// The exit status was read, or nothing in time.
    StatusRead(Option<i32>),
    /// The request and the response were recorded.
    Recorded,
}

/// What the caller does next in an execution.
#[derive(Debug)]
pub enum RunAction {
    /// Start a new trace file if told so, deliver the input, then write
    /// `ctl_word` to the control pipe, waiting at most
    /// `STREAM_TIMEOUT_MS`, and report with `CtlWritten`.
    Prepare { start_new_trace: bool, delivery: Delivery, ctl_word: i32 },
    /// Read the identifier of the child from the status pipe, waiting at
    /// most `STREAM_TIMEOUT_MS`, and report with `PidRead`.
    ReadPid,
    /// Get the stream from the connector, write the input to it, and
    /// report with `RequestSent`.
    SendRequest,
    /// Read the exit status from the status pipe, waiting at most the
    /// given time, and report with `StatusRead`.
    ReadStatus { timeout_ms: u64 },
    /// Send the signal to the child, then read the exit status, waiting at
    /// most `STREAM_TIMEOUT_MS`, and report with `StatusRead`.
    KillAndReadStatus { pid: i32, signal: i32 },
    /// If the connector holds a stream, read up to `RESPONSE_CAPACITY`
    /// bytes of response from it and write request and response to the
    /// trace under this exit kind; then report with `Recorded`.
    Record { exit_kind: ExitKind },
    /// The execution is over, with this classification.
    Done(ExitKind),
    /// The execution failed.
    Fail(Error),
}

/// A run action as contracts speak of it.
pub ghost enum RunActionView {
    Prepare { start_new_trace: bool, delivery: Delivery, ctl_word: i32 },
    ReadPid,
    SendRequest,
    ReadStatus { timeout_ms: u64 },
    KillAndReadStatus { pid: i32, signal: i32 },
    Record { exit_kind: ExitKind },
    Done(ExitKind),
    Fail(ErrorView),
}

impl View for RunAction {
    type V = RunActionView;

    open spec fn view(&self) -> RunActionView {
        match *self {
            RunAction::Prepare { start_new_trace, delivery, ctl_word } => RunActionView::Prepare {
                start_new_trace,
                delivery,
                ctl_word,
            },
            RunAction::ReadPid => RunActionView::ReadPid,
            RunAction::SendRequest => RunActionView::SendRequest,
            RunAction::ReadStatus { timeout_ms } => RunActionView::ReadStatus { timeout_ms },
            RunAction::KillAndReadStatus { pid, signal } => RunActionView::KillAndReadStatus {
                pid,
                signal,
            },
            RunAction::Record { exit_kind } => RunActionView::Record { exit_kind },
            RunAction::Done(exit_kind) => RunActionView::Done(exit_kind),
            RunAction::Fail(e) => RunActionView::Fail(e@),
        }
    }
}

/// The executor as contracts speak of it.
pub ghost struct ExecutorView {
    /// The program that is run.
    pub target: Seq<char>,
    /// The arguments of the program.
    pub args: Seq<Seq<char>>,
    pub input_mode: InputMode,
    pub forkserver: ForkserverView,
    /// The length of the shared input memory, if there is one.
    pub map_len: Option<usize>,
    /// The size of the coverage map, if it was set or reported.
    pub map_size: Option<usize>,
    /// How long an execution may take, in milliseconds.
    pub timeout_ms: u64,
    pub collector: Option<CollectorView>,
    pub socket_con: Option<SocketConnectorView>,
    pub phase: RunPhase,
    /// The classification of the execution under way, as far as it is
    /// known.
    pub exit_kind: ExitKind,
}

impl ExecutorView {
    /// The invariant of the executor: there is what the input mode needs,
    /// and once a child was asked for, its identifier is known.
    pub open spec fn wf(self) -> bool {
        &&& self.input_mode is Shmem ==> self.map_len is Some && self.map_len->Some_0
            >= SHMEM_FUZZ_HDR_SIZE
        &&& self.input_mode.is_socket() ==> self.socket_con is Some
        &&& (self.phase is AwaitSend || self.phase is AwaitStatus || self.phase
            is AwaitStatusAfterKill || self.phase is AwaitRecord)
            ==> self.forkserver.child_pid is Some
    }

    /// How the input is made ready in the given mode, for a child that is
    /// there or is not.
    pub open spec fn delivery(self) -> Delivery {
        let child_is_none = self.forkserver.child_pid is None;
        match self.input_mode {
            InputMode::Stdin => Delivery::Stdin,
            InputMode::Shmem => Delivery::Shmem { map_len: self.map_len->Some_0 },
            InputMode::SocketServer(_) => Delivery::ServStart { force: child_is_none },
            InputMode::SocketClient(_) => if child_is_none {
                Delivery::ClientReset
            } else {
                Delivery::ClientKeep
            },
        }
    }

    /// The bytes of an input that the child gets to see: what was
    /// supplied, cut off at what the input mode can hold. Shared memory
    /// holds as much as its length without the header; the other modes hold
    /// any input.
    pub open spec fn observed(self, input: Seq<u8>) -> Seq<u8> {
        match self.input_mode {
            InputMode::Shmem => input.take(
                delivered_len(input.len() as int, self.map_len->Some_0 as int),
            ),
            _ => input,
        }
    }

    /// The first step of an execution: a trace is started where there is
    /// no child and a collector is attached, the input is made ready, and
    /// the word that says whether the last execution ran out of time goes
    /// to the forkserver.
    pub open spec fn begin(self) -> (ExecutorView, RunActionView) {
        (
            ExecutorView { phase: RunPhase::AwaitCtl, exit_kind: ExitKind::Okay, ..self },
            RunActionView::Prepare {
                start_new_trace: self.forkserver.child_pid is None && self.collector is Some,
                delivery: self.delivery(),
                ctl_word: self.forkserver.last_run_timed_out,
            },
        )
    }

    /// The executor after its child was ended on purpose: the child is off
    /// the books, the next control word says that it was ended, and no
    /// execution is under way.
    pub open spec fn without_child(self) -> ExecutorView {
        ExecutorView {
            forkserver: ForkserverView { last_run_timed_out: 1, child_pid: None, ..self.forkserver },
            phase: RunPhase::Idle,
            ..self
        }
    }

    /// The executor after the given events, each taken as a step.
    pub open spec fn after(self, events: Seq<RunEvent>) -> ExecutorView
        decreases events.len(),
    {
        if events.len() == 0 {
            self
        } else {
            self.after(events.drop_last()).step(events.last()).0
        }
    }

    /// Whether an event brings the identifier of a child.
    pub open spec fn brings_child(event: RunEvent) -> bool {
        event is PidRead && event->PidRead_0 is Some && event->PidRead_0->Some_0 > 0
    }

    /// The identifier of a child that the events brought last, if any of
    /// them brought one.
    pub open spec fn child_read_last(events: Seq<RunEvent>) -> Option<i32>
        decreases events.len(),
    {
        if events.len() == 0 {
            None
        } else if Self::brings_child(events.last()) {
            events.last()->PidRead_0
        } else {
            Self::child_read_last(events.drop_last())
        }
    }

    /// The executor with no execution under way.
    pub open spec fn idle(self) -> ExecutorView {
        ExecutorView { phase: RunPhase::Idle, ..self }
    }

    /// The executor after an execution failed with the given error.
    pub open spec fn failed(self, e: ErrorView) -> (ExecutorView, RunActionView) {
        (self.idle(), RunActionView::Fail(e))
    }

    /// The end of an execution: the trace is kept if the target crashed,
    /// and the child is forgotten unless it is merely stopped, waiting for
    /// the next input.
    pub open spec fn finish(self) -> (ExecutorView, RunActionView) {
        let collector = if self.collector is Some && self.exit_kind == ExitKind::Crash {
            Some(
                CollectorView {
                    trace_no: (self.collector->Some_0.trace_no + 1) as usize,
                    ..self.collector->Some_0
                },
            )
        } else {
            self.collector
        };
        let forkserver = if wifstopped(self.forkserver.status) {
            self.forkserver
        } else {
            ForkserverView { child_pid: None, ..self.forkserver }
        };
        (
            ExecutorView { collector, forkserver, phase: RunPhase::Idle, ..self },
            RunActionView::Done(self.exit_kind),
        )
    }

    /// What follows once the status of the child is known and the
    /// execution is classified: the exchange is recorded where a collector
    /// is attached and the input went over a socket, and the execution
    /// ends.
    pub open spec fn classified(self, status: i32, exit_kind: ExitKind) -> (
        ExecutorView,
        RunActionView,
    ) {
        let v = ExecutorView {
            forkserver: ForkserverView { status, ..self.forkserver },
            exit_kind,
            ..self
        };
        if v.collector is Some && v.input_mode.is_socket() {
            (
                ExecutorView { phase: RunPhase::AwaitRecord, ..v },
                RunActionView::Record { exit_kind },
            )
        } else {
            v.finish()
        }
    }

    /// One step of an execution: the executor and the next action after
    /// the given event. An event that does not answer the action before it
    /// ends the execution with `IllegalState`.
    pub open spec fn step(self, event: RunEvent) -> (ExecutorView, RunActionView) {
        match (self.phase, event) {
            (RunPhase::AwaitCtl, RunEvent::CtlWritten(None)) => self.failed(
                ErrorView::File(ErrorKind::TimedOut, "Could not write to forkserver"@),
            ),
            (RunPhase::AwaitCtl, RunEvent::CtlWritten(Some(sent))) => {
                let v = ExecutorView {
                    forkserver: ForkserverView { last_run_timed_out: 0, ..self.forkserver },
                    ..self
                };
                if sent != 4 {
                    v.failed(
                        ErrorView::Unknown(
                            "Unable to request new process from fork server (OOM?)"@,
                        ),
                    )
                } else {
                    (ExecutorView { phase: RunPhase::AwaitPid, ..v }, RunActionView::ReadPid)
                }
            },
            (RunPhase::AwaitPid, RunEvent::PidRead(None)) => self.failed(
                ErrorView::File(ErrorKind::TimedOut, "Could not read PID from forkserver"@),
            ),
            (RunPhase::AwaitPid, RunEvent::PidRead(Some(pid))) => {
                if pid <= 0 {
                    self.failed(ErrorView::Unknown("Fork server is misbehaving (OOM?)"@))
                } else {
                    let v = ExecutorView {
                        forkserver: ForkserverView { child_pid: Some(pid), ..self.forkserver },
                        ..self
                    };
                    if v.input_mode.is_socket() {
                        (
                            ExecutorView { phase: RunPhase::AwaitSend, ..v },
                            RunActionView::SendRequest,
                        )
                    } else {
                        (
                            ExecutorView { phase: RunPhase::AwaitStatus, ..v },
                            RunActionView::ReadStatus { timeout_ms: v.timeout_ms },
                        )
                    }
                }
            },
            (RunPhase::AwaitSend, RunEvent::RequestSent) => (
                ExecutorView { phase: RunPhase::AwaitStatus, ..self },
                RunActionView::ReadStatus { timeout_ms: self.timeout_ms },
            ),
            (RunPhase::AwaitStatus, RunEvent::StatusRead(Some(status))) => self.classified(
                status,
                if wifsignaled(status) {
                    ExitKind::Crash
                } else {
                    ExitKind::Okay
                },
            ),
            (RunPhase::AwaitStatus, RunEvent::StatusRead(None)) => (
                ExecutorView {
                    forkserver: ForkserverView { last_run_timed_out: 1, ..self.forkserver },
                    phase: RunPhase::AwaitStatusAfterKill,
                    ..self
                },
                RunActionView::KillAndReadStatus {
                    pid: self.forkserver.child_pid->Some_0,
                    signal: self.forkserver.kill_signal,
                },
            ),
            (RunPhase::AwaitStatusAfterKill, RunEvent::StatusRead(Some(status))) => self.classified(
                status,
                ExitKind::Timeout,
            ),
            (RunPhase::AwaitStatusAfterKill, RunEvent::StatusRead(None)) => self.failed(
                ErrorView::File(
                    ErrorKind::TimedOut,
                    "Could not read from forkserver after timeout"@,
                ),
            ),
            (RunPhase::AwaitRecord, RunEvent::Recorded) => self.finish(),
            _ => self.failed(ErrorView::IllegalState("This step does not follow the step before"@)),
        }
    }
}

/// The executor that runs inputs in a target behind a forkserver. It keeps
/// the books of the forkserver and decides, step by step, what an
/// execution does next; the caller does the reading and the writing.
#[derive(Debug)]
pub struct ForkserverExecutor {
    target: String,
    args: Vec<String>,
    input_mode: InputMode,
    forkserver: Forkserver,
    map_len: Option<usize>,
    map_size: Option<usize>,
    timeout_ms: u64,
    request_response_collector: Option<RequestResponseCollector>,
    socket_con: Option<SocketConnector>,
    phase: RunPhase,
    exit_kind: ExitKind,
}

/// The characters of each of some strings.
pub open spec fn texts(strings: Seq<String>) -> Seq<Seq<char>> {
    strings.map_values(|s: String| s@)
}

impl View for ForkserverExecutor {
    type V = ExecutorView;

    closed spec fn view(&self) -> ExecutorView {
        ExecutorView {
            target: self.target@,
            args: texts(self.args@),
            input_mode: self.input_mode,
            forkserver: self.forkserver@,
            map_len: self.map_len,
            map_size: self.map_size,
            timeout_ms: self.timeout_ms,
            collector: match self.request_response_collector {
                Some(c) => Some(c@),
                None => None,
            },
            socket_con: match self.socket_con {
                Some(c) => Some(c@),
                None => None,
            },
            phase: self.phase,
            exit_kind: self.exit_kind,
        }
    }
}

impl ForkserverExecutor {
    /// The program that is run.
    pub fn target(&self) -> (r: &String)
        ensures
            r@ == self@.target,
    {
        &self.target
    }

    /// The arguments of the program.
    pub fn args(&self) -> (r: &Vec<String>)
        ensures
            texts(r@) == self@.args,
    {
        &self.args
    }

    /// The books of the forkserver.
    pub fn forkserver(&self) -> (r: &Forkserver)
        ensures
            r@ == self@.forkserver,
    {
        &self.forkserver
    }

    /// How the input reaches the target.
    pub fn input_mode(&self) -> (r: InputMode)
        ensures
            r == self@.input_mode,
    {
        self.input_mode
    }

    /// The size of the coverage map, if it was set or the target reported
    /// it.
    pub fn coverage_map_size(&self) -> (r: Option<usize>)
        ensures
            r == self@.map_size,
    {
        self.map_size
    }

    /// How long an execution may take, in milliseconds.
    pub fn timeout_ms(&self) -> (r: u64)
        ensures
            r == self@.timeout_ms,
    {
        self.timeout_ms
    }

    /// Where the execution stands.
    pub fn phase(&self) -> (r: RunPhase)
        ensures
            r == self@.phase,
    {
        self.phase
    }

    /// The collector of traces, if one is attached.
    pub fn collector(&self) -> (r: &Option<RequestResponseCollector>)
        ensures
            r is Some <==> self@.collector is Some,
            r is Some ==> r->Some_0@ == self@.collector->Some_0,
    {
        &self.request_response_collector
    }

    /// The socket connector, if the input goes over a socket.
    pub fn socket_con(&self) -> (r: &Option<SocketConnector>)
        ensures
            r is Some <==> self@.socket_con is Some,
            r is Some ==> r->Some_0@ == self@.socket_con->Some_0,
    {
        &self.socket_con
    }

    /// The socket connector of an executor whose input goes over a socket,
    /// for telling it what became of the socket.
    pub fn socket_con_mut(&mut self) -> (r: &mut SocketConnector)
        requires
            old(self)@.socket_con is Some,
        ensures
            r@ == old(self)@.socket_con->Some_0,
            final(self)@ == (ExecutorView { socket_con: Some(final(r)@), ..old(self)@ }),
    {
        self.socket_con.as_mut().unwrap()
    }

    /// Takes note that the child is being ended on purpose: the forkserver
    /// is told so with the next control word, and the child is forgotten.
    pub fn reset_child(&mut self)
        ensures
            final(self)@ == old(self)@.without_child(),
            old(self)@.wf() ==> final(self)@.wf(),
    {
        self.forkserver.set_last_run_timed_out(true);
        self.forkserver.reset_child_pid();
        self.phase = RunPhase::Idle;
    }

    /// Gives up the executor, so that a new forkserver can be started: the
    /// collector of traces is handed back.
    pub fn shutdown(self) -> (r: Option<RequestResponseCollector>)
        ensures
            r is Some <==> self@.collector is Some,
            r is Some ==> r->Some_0@ == self@.collector->Some_0,
    {
        self.request_response_collector
    }

    /// Tells whether the executor holds its invariant, see
    /// [`ExecutorView::wf`].
    pub fn is_well_formed(&self) -> (r: bool)
        ensures
            r == self@.wf(),
    {
        let map_fits = match self.input_mode {
            InputMode::Shmem => match self.map_len {
                Some(len) => len >= SHMEM_FUZZ_HDR_SIZE,
                None => false,
            },
            _ => true,
        };
        let socket_fits = !self.input_mode.uses_socket() || self.socket_con.is_some();
        let child_fits = match self.phase {
            RunPhase::AwaitSend => self.forkserver.child_pid().is_some(),
            RunPhase::AwaitStatus => self.forkserver.child_pid().is_some(),
            RunPhase::AwaitStatusAfterKill => self.forkserver.child_pid().is_some(),
            RunPhase::AwaitRecord => self.forkserver.child_pid().is_some(),
            _ => true,
        };
        map_fits && socket_fits && child_fits
    }

    /// Tells whether a trace can be kept, see [`Self::can_keep_trace`].
    pub fn has_room_for_trace(&self) -> (r: bool)
        ensures
            r == Self::can_keep_trace(self@),
    {
        match &self.request_response_collector {
            Some(collector) => collector.trace_no() < usize::MAX,
            None => true,
        }
    }

    /// The bytes of an input that the child gets to see: the whole
    /// input, but for shared memory, which holds no more than its length
    /// without the header.
    pub fn input_for_child(&self, input: &[u8]) -> (r: Vec<u8>)
        requires
            self@.wf(),
        ensures
            r@ == self@.observed(input@),
    {
        let keep: usize = match self.input_mode {
            InputMode::Shmem => {
                let max_size = self.map_len.unwrap() - SHMEM_FUZZ_HDR_SIZE;
                if input.len() > max_size {
                    max_size
                } else {
                    input.len()
                }
            },
            _ => input.len(),
        };
        let mut out: Vec<u8> = Vec::new();
        let mut i: usize = 0;
        while i < keep
            invariant
                i <= keep <= input@.len(),
                out@ == input@.take(i as int),
            decreases keep - i,
        {
            out.push(input[i]);
            assert(input@.take(i + 1) == input@.take(i as int).push(input@[i as int]));
            i = i + 1;
        }
        assert(input@.take(input@.len() as int) == input@);
        out
    }

    /// Whether the trace number has room to grow, so that a trace can be
    /// kept.
    pub open spec fn can_keep_trace(v: ExecutorView) -> bool {
        v.collector is Some ==> v.collector->Some_0.trace_no < usize::MAX
    }

    /// Begins an execution. The execution is counted for the selected
    /// target state, and for no other; the caller is told how to make the
    /// input ready and what to write to the forkserver. An execution that
    /// was under way is abandoned.
    pub fn begin_run<C, SC>(&mut self, state: &mut LibAFLStarState<C, SC>) -> (r: RunAction)
        requires
            old(self)@.wf(),
            old(state)@.wf(),
            old(state)@.active().executions < u64::MAX,
        ensures
            final(state)@ == old(state)@.with_active(
                (InnerState {
                    executions: (old(state)@.active().executions + 1) as u64,
                    ..old(state)@.active()
                }),
            ),
            final(state)@.wf(),
            (final(self)@, r@) == old(self)@.begin(),
            final(self)@.wf(),
    {
        let executions = state.executions_mut();
        *executions = *executions + 1;
        let child_is_none = self.forkserver.child_pid().is_none();
        let start_new_trace = child_is_none && self.request_response_collector.is_some();
        let delivery = match self.input_mode {
            InputMode::Stdin => Delivery::Stdin,
            InputMode::Shmem => Delivery::Shmem { map_len: self.map_len.unwrap() },
            InputMode::SocketServer(_) => Delivery::ServStart { force: child_is_none },
            InputMode::SocketClient(_) => {
                if child_is_none {
                    Delivery::ClientReset
                } else {
                    Delivery::ClientKeep
                }
            },
        };
        self.phase = RunPhase::AwaitCtl;
        self.exit_kind = ExitKind::Okay;
        RunAction::Prepare {
            start_new_trace,
            delivery,
            ctl_word: self.forkserver.last_run_timed_out_raw(),
        }
    }

    /// Ends the execution with a failure.
    fn fail(&mut self, e: Error) -> (r: RunAction)
        ensures
            (final(self)@, r@) == old(self)@.failed(e@),
    {
        self.phase = RunPhase::Idle;
        RunAction::Fail(e)
    }

    /// Ends the execution with its classification.
    fn finish(&mut self) -> (r: RunAction)
        requires
            Self::can_keep_trace(old(self)@),
        ensures
            (final(self)@, r@) == old(self)@.finish(),
    {
        if self.exit_kind == ExitKind::Crash {
            match &mut self.request_response_collector {
                Some(collector) => {
                    collector.save_this_trace();
                },
                None => {},
            }
        }
        if !status_is_stopped(self.forkserver.status()) {
            self.forkserver.reset_child_pid();
        }
        self.phase = RunPhase::Idle;
        RunAction::Done(self.exit_kind)
    }

    /// Goes on once the status of the child is known.
    fn classified(&mut self, status: i32, exit_kind: ExitKind) -> (r: RunAction)
        requires
            Self::can_keep_trace(old(self)@),
        ensures
            (final(self)@, r@) == old(self)@.classified(status, exit_kind),
    {
        self.forkserver.set_status(status);
        self.exit_kind = exit_kind;
        if self.request_response_collector.is_some() && self.input_mode.uses_socket() {
            self.phase = RunPhase::AwaitRecord;
            RunAction::Record { exit_kind }
        } else {
            self.finish()
        }
    }

    /// Takes what came of the last action and says what to do next, until
    /// the execution is done or has failed. The steps of an execution come
    /// in one order: the control word is written, then the identifier of
    /// the child is read, then the input goes over the socket if it goes
    /// that way, then the status is read, and last the exchange is
    /// recorded if it is.
    pub fn step(&mut self, event: RunEvent) -> (r: RunAction)
        requires
            old(self)@.wf(),
            Self::can_keep_trace(old(self)@),
        ensures
            (final(self)@, r@) == old(self)@.step(event),
            final(self)@.wf(),
    {
        match (self.phase, event) {
            (RunPhase::AwaitCtl, RunEvent::CtlWritten(None)) => self.fail(
                create_timeout_error("Could not write to forkserver"),
            ),
            (RunPhase::AwaitCtl, RunEvent::CtlWritten(Some(sent))) => {
                self.forkserver.set_last_run_timed_out(false);
                if sent != 4 {
                    self.fail(
                        Error::unknown("Unable to request new process from fork server (OOM?)"),
                    )
                } else {
                    self.phase = RunPhase::AwaitPid;
                    RunAction::ReadPid
                }
            },
            (RunPhase::AwaitPid, RunEvent::PidRead(None)) => self.fail(
                create_timeout_error("Could not read PID from forkserver"),
            ),
            (RunPhase::AwaitPid, RunEvent::PidRead(Some(pid))) => {
                if pid <= 0 {
                    self.fail(Error::unknown("Fork server is misbehaving (OOM?)"))
                } else {
                    self.forkserver.set_child_pid(pid);
                    if self.input_mode.uses_socket() {
                        self.phase = RunPhase::AwaitSend;
                        RunAction::SendRequest
                    } else {
                        self.phase = RunPhase::AwaitStatus;
                        RunAction::ReadStatus { timeout_ms: self.timeout_ms }
                    }
                }
            },
            (RunPhase::AwaitSend, RunEvent::RequestSent) => {
                self.phase = RunPhase::AwaitStatus;
                RunAction::ReadStatus { timeout_ms: self.timeout_ms }
            },
            (RunPhase::AwaitStatus, RunEvent::StatusRead(Some(status))) => {
                let exit_kind = if status_is_signaled(status) {
                    ExitKind::Crash
                } else {
                    ExitKind::Okay
                };
                self.classified(status, exit_kind)
            },
            (RunPhase::AwaitStatus, RunEvent::StatusRead(None)) => {
                self.forkserver.set_last_run_timed_out(true);
                self.phase = RunPhase::AwaitStatusAfterKill;
                RunAction::KillAndReadStatus {
                    pid: self.forkserver.child_pid().unwrap(),
                    signal: self.forkserver.kill_signal(),
                }
            },
            (RunPhase::AwaitStatusAfterKill, RunEvent::StatusRead(Some(status))) => {
                self.classified(status, ExitKind::Timeout)
            },
            (RunPhase::AwaitStatusAfterKill, RunEvent::StatusRead(None)) => self.fail(
                create_timeout_error("Could not read from forkserver after timeout"),
            ),
            (RunPhase::AwaitRecord, RunEvent::Recorded) => self.finish(),
            _ => self.fail(Error::illegal_state("This step does not follow the step before")),
        }
    }
}

/// How long an execution may take where no timeout was set, in
/// milliseconds.
pub const DEFAULT_TIMEOUT_MS: u64 = 5000;

/// The characters of a string that may be absent.
pub open spec fn text_of(s: Option<String>) -> Option<Seq<char>> {
    match s {
        Some(s) => Some(s@),
        None => None,
    }
}

/// The characters of each name and value of some pairs.
pub open spec fn pair_texts(pairs: Seq<(String, String)>) -> Seq<(Seq<char>, Seq<char>)> {
    pairs.map_values(|p: (String, String)| (p.0@, p.1@))
}

/// A copy of some strings.
pub fn clone_strings(strings: &Vec<String>) -> (r: Vec<String>)
    ensures
        r@ == strings@,
{
    let mut out: Vec<String> = Vec::new();
    let mut i: usize = 0;
    while i < strings.len()
        invariant
            i <= strings@.len(),
            out@ == strings@.take(i as int),
        decreases strings@.len() - i,
    {
        out.push(strings[i].clone());
        assert(strings@.take(i + 1) == strings@.take(i as int).push(strings@[i as int]));
        i = i + 1;
    }
    assert(strings@.take(i as int) == strings@);
    out
}

/// A copy of some pairs of strings.
pub fn clone_string_pairs(pairs: &Vec<(String, String)>) -> (r: Vec<(String, String)>)
    ensures
        r@ == pairs@,
{
    let mut out: Vec<(String, String)> = Vec::new();
    let mut i: usize = 0;
    while i < pairs.len()
        invariant
            i <= pairs@.len(),
            out@ == pairs@.take(i as int),
        decreases pairs@.len() - i,
    {
        out.push((pairs[i].0.clone(), pairs[i].1.clone()));
        assert(pairs@.take(i + 1) == pairs@.take(i as int).push(pairs@[i as int]));
        i = i + 1;
    }
    assert(pairs@.take(i as int) == pairs@);
    out
}

/// Where the handshake with a fresh forkserver stands.
#[derive(Debug, Clone, Copy, PartialEq, Eq, Structural)]
pub enum HandshakePhase {
    /// The hello word of the forkserver is awaited.
    AwaitHello,
    /// The acknowledgement is being written.
    AwaitAck,
    /// The size of the dictionary is awaited.
    AwaitDictSize,
    /// The dictionary is awaited.
    AwaitDict,
    /// The handshake is done.
    Done,
    /// The handshake failed.
    Failed,
}

/// What came of the step of the handshake that the caller was told to do.
#[derive(Debug, Clone, Copy, PartialEq, Eq, Structural)]
pub enum HandshakeEvent {
    /// The hello word: how many bytes were read, and the word.
    Hello { read: usize, status: i32 },
    /// The acknowledgement: how many bytes were written.
    AckWritten { written: usize },
    /// The size of the dictionary: how many bytes were read, and the size.
    DictSize { read: usize, size: i32 },
    /// The dictionary: how many bytes were read.
    Dict { read: usize },
}

/// What the caller does next in the handshake.
#[derive(Debug)]
pub enum HandshakeAction {
    /// Write the word to the control pipe and report with `AckWritten`.
    WriteCtl { word: i32 },
    /// Read a word from the status pipe and report with `DictSize`.
    ReadDictSize,
    /// Read that many bytes from the status pipe and report with `Dict`.
    ReadDict { len: usize },
    /// The handshake is done. If told so, hand the bytes of the dictionary
    /// to the store of tokens.
    Done { parse_dict: bool },
    /// The handshake failed: no executor can be built.
    Fail(Error),
}

/// A handshake action as contracts speak of it.
pub ghost enum HandshakeActionView {
    WriteCtl { word: i32 },
    ReadDictSize,
    ReadDict { len: usize },
    Done { parse_dict: bool },
    Fail(ErrorView),
}

impl View for HandshakeAction {
    type V = HandshakeActionView;

    open spec fn view(&self) -> HandshakeActionView {
        match *self {
            HandshakeAction::WriteCtl { word } => HandshakeActionView::WriteCtl { word },
            HandshakeAction::ReadDictSize => HandshakeActionView::ReadDictSize,
            HandshakeAction::ReadDict { len } => HandshakeActionView::ReadDict { len },
            HandshakeAction::Done { parse_dict } => HandshakeActionView::Done { parse_dict },
            HandshakeAction::Fail(e) => HandshakeActionView::Fail(e@),
        }
    }
}

/// The file through which the target gets its input on standard input.
#[derive(Debug)]
pub enum InputFilePlan {
    /// None is needed.
    NoFile,
    /// Create the file of this name.
    Named(String),
    /// Create the file of the name that is unique to this process.
    Standard,
}

/// What the forkserver is started with.
#[derive(Debug)]
pub struct SpawnTarget {
    pub program: String,
    pub arguments: Vec<String>,
    /// The whole environment to set, see [`forkserver_environment`].
    pub envs: Vec<(String, String)>,
    /// Whether the input file becomes the standard input of the target.
    pub use_stdin: bool,
    /// The limit on memory in mebibytes, 0 for none.
    pub memlimit: u64,
    /// Whether the target keeps its output; else it goes nowhere.
    pub debug_child: bool,
    /// The number of the signal that ends a child that ran out of time.
    pub kill_signal: i32,
}

/// What the caller does to start a forkserver, in this order: the input
/// file, the shared input memory, the process.
#[derive(Debug)]
pub struct SpawnPlan {
    pub input_mode: InputMode,
    pub input_file: InputFilePlan,
    /// Get shared memory of this length, announce it to the target as
    /// `__AFL_SHM_FUZZ_ID`, and write the low four bytes of the length to
    /// its start.
    pub shmem_len: Option<usize>,
    /// What to start, or `IllegalArgument` where no program was named.
    pub target: Result<SpawnTarget, Error>,
}

/// The builder as contracts speak of it.
pub ghost struct BuilderView {
    pub program: Option<Seq<char>>,
    pub arguments: Seq<Seq<char>>,
    pub envs: Seq<(Seq<char>, Seq<char>)>,
    pub debug_child: bool,
    pub use_stdin: bool,
    pub uses_shmem_testcase: bool,
    pub is_persistent: bool,
    pub is_deferred_frksrv: bool,
    /// Whether there is a store for the tokens of the target's dictionary.
    pub autotokens: bool,
    pub input_filename: Option<Seq<char>>,
    /// Whether there is a provider of shared memory for inputs.
    pub shmem_provider: bool,
    pub socket_port: Option<u16>,
    pub socket_client_mode: bool,
    pub max_input_size: usize,
    pub map_size: Option<usize>,
    pub real_map_size: i32,
    pub kill_signal: Option<i32>,
    /// The timeout of an execution in milliseconds.
    pub timeout: Option<u64>,
    pub collector: Option<CollectorView>,
    pub handshake: HandshakePhase,
    /// The acknowledgement that was sent in the handshake.
    pub send_status: i32,
    /// The size of the dictionary that the target announced.
    pub dict_size: i32,
}

impl BuilderView {
    /// The invariant of the builder: the header fits before the largest
    /// input.
    pub open spec fn wf(self) -> bool {
        self.max_input_size <= usize::MAX - SHMEM_FUZZ_HDR_SIZE
    }

    /// How the input will reach the target: over a socket where a port was
    /// given, else in shared memory where there is a provider, else on
    /// standard input.
    pub open spec fn input_mode(self) -> InputMode {
        if self.socket_port is Some {
            if self.socket_client_mode {
                InputMode::SocketClient(self.socket_port->Some_0)
            } else {
                InputMode::SocketServer(self.socket_port->Some_0)
            }
        } else if self.shmem_provider {
            InputMode::Shmem
        } else {
            InputMode::Stdin
        }
    }

    /// The builder with one more argument for the target.
    pub open spec fn with_arg(self, arg: Seq<char>) -> BuilderView {
        BuilderView { arguments: self.arguments.push(arg), ..self }
    }

    /// The builder with the path of the input file as one more argument,
    /// and that path set as the name of the input file.
    pub open spec fn with_input_file(self, path: Seq<char>) -> BuilderView {
        BuilderView { input_filename: Some(path), ..self.with_arg(path) }
    }

    /// The builder after one item of a command line in the style of AFL:
    /// `@@` stands for the input file, under the name that was set or else
    /// under the standard name, and anything else is an argument.
    pub open spec fn parse_item(self, item: Seq<char>, std_name: Seq<char>) -> BuilderView {
        if item == "@@"@ {
            self.with_input_file(
                match self.input_filename {
                    Some(name) => name,
                    None => std_name,
                },
            )
        } else {
            self.with_arg(item)
        }
    }

    /// The builder after some items of a command line.
    pub open spec fn parse_items(self, items: Seq<Seq<char>>, std_name: Seq<char>) -> BuilderView
        decreases items.len(),
    {
        if items.len() == 0 {
            self
        } else {
            self.parse_items(items.drop_last(), std_name).parse_item(items.last(), std_name)
        }
    }

    /// The builder after a command line in the style of AFL: where no
    /// program was set the first item is the program, the other items are
    /// taken one by one, and the input goes to standard input unless an
    /// input file was named.
    pub open spec fn parse_cmdline(self, args: Seq<Seq<char>>, std_name: Seq<char>) -> BuilderView {
        let parsed = if self.program is None && args.len() > 0 {
            (BuilderView { program: Some(args[0]), ..self }).parse_items(
                args.subrange(1, args.len() as int),
                std_name,
            )
        } else {
            self.parse_items(args, std_name)
        };
        BuilderView { use_stdin: parsed.input_filename is None, ..parsed }
    }

    /// The input file that is made before the forkserver is started.
    pub open spec fn input_file_plan(self) -> Option<Option<Seq<char>>> {
        if self.input_mode() is Stdin {
            Some(self.input_filename)
        } else {
            None
        }
    }

    /// The length of the shared input memory that is made before the
    /// forkserver is started: the largest input and the header.
    pub open spec fn shmem_len(self) -> Option<usize> {
        if self.shmem_provider {
            Some((self.max_input_size + SHMEM_FUZZ_HDR_SIZE) as usize)
        } else {
            None
        }
    }

    /// The signal that ends a child that ran out of time: the one that was
    /// set, else `SIGTERM`.
    pub open spec fn chosen_kill_signal(self) -> i32 {
        match self.kill_signal {
            Some(signal) => signal,
            None => 15,
        }
    }

    /// The executor that is built once the handshake is done. The
    /// connector of client mode is made only if `client_connector` says
    /// so.
    pub open spec fn built(self, client_connector: bool) -> ExecutorView {
        ExecutorView {
            target: self.program->Some_0,
            args: self.arguments,
            input_mode: self.input_mode(),
            forkserver: ForkserverView {
                child_pid: None,
                status: 0,
                last_run_timed_out: 0,
                kill_signal: self.chosen_kill_signal(),
            },
            map_len: self.shmem_len(),
            map_size: self.map_size,
            timeout_ms: match self.timeout {
                Some(ms) => ms,
                None => DEFAULT_TIMEOUT_MS,
            },
            collector: self.collector,
            socket_con: match self.input_mode() {
                InputMode::SocketServer(port) => Some(
                    SocketConnectorView {
                        port,
                        has_listener: true,
                        has_stream: false,
                        listening: false,
                        refused: 0,
                    },
                ),
                InputMode::SocketClient(port) => if client_connector {
                    Some(
                        SocketConnectorView {
                            port,
                            has_listener: false,
                            has_stream: false,
                            listening: false,
                            refused: 0,
                        },
                    )
                } else {
                    None
                },
                _ => None,
            },
            phase: RunPhase::Idle,
            exit_kind: ExitKind::Okay,
        }
    }

    /// Why no executor can be built, if so: the handshake is not done, no
    /// program is named, or inputs in shared memory were agreed on without
    /// shared memory for them.
    pub open spec fn build_error(self) -> Option<ErrorView> {
        if !(self.handshake is Done) {
            Some(ErrorView::IllegalState("The handshake with the forkserver is not done"@))
        } else if self.program is None {
            Some(
                ErrorView::IllegalArgument(
                    "ForkserverExecutorBuilder::build: target file not found"@,
                ),
            )
        } else if self.uses_shmem_testcase && !self.shmem_provider {
            Some(ErrorView::IllegalState("Map must always be set for `uses_shmem_testcase`"@))
        } else {
            None
        }
    }

    /// Whether a hello word can be taken: a map size that it carries is no
    /// larger than the size that was set.
    pub open spec fn hello_fits(self, status: i32) -> bool {
        reported_map_size(status) is Some && self.map_size is Some ==> reported_map_size(
            status,
        )->Some_0 <= self.map_size->Some_0
    }

    /// The builder and the next action after the hello word of the
    /// forkserver.
    pub open spec fn after_hello(self, read: usize, status: i32) -> (
        BuilderView,
        HandshakeActionView,
    ) {
        if read != 4 {
            self.handshake_failed(ErrorView::Unknown("Failed to start a forkserver"@))
        } else {
            let sized = if reported_map_size(status) is Some {
                BuilderView {
                    real_map_size: mapsize_of(status) as i32,
                    map_size: reported_map_size(status),
                    ..self
                }
            } else {
                self
            };
            let taken = BuilderView {
                uses_shmem_testcase: self.uses_shmem_testcase || (has_flag(status, FS_OPT_ENABLED)
                    && has_flag(status, FS_OPT_SHDMEM_FUZZ) && self.shmem_provider),
                ..sized
            };
            match acknowledgement(status, self.shmem_provider, self.autotokens) {
                Some(word) => (
                    BuilderView { handshake: HandshakePhase::AwaitAck, send_status: word, ..taken },
                    HandshakeActionView::WriteCtl { word },
                ),
                None => (
                    BuilderView { handshake: HandshakePhase::Done, ..taken },
                    HandshakeActionView::Done { parse_dict: false },
                ),
            }
        }
    }

    /// The builder after the handshake failed with the given error.
    pub open spec fn handshake_failed(self, e: ErrorView) -> (BuilderView, HandshakeActionView) {
        (BuilderView { handshake: HandshakePhase::Failed, ..self }, HandshakeActionView::Fail(e))
    }

    /// One step of the handshake: the builder and the next action after
    /// the given event. An event that does not answer the action before it
    /// fails the handshake with `IllegalState`.
    pub open spec fn handshake_step(self, event: HandshakeEvent) -> (
        BuilderView,
        HandshakeActionView,
    ) {
        match (self.handshake, event) {
            (HandshakePhase::AwaitHello, HandshakeEvent::Hello { read, status }) => self.after_hello(
                read,
                status,
            ),
            (HandshakePhase::AwaitAck, HandshakeEvent::AckWritten { written }) => {
                if written != 4 {
                    self.handshake_failed(ErrorView::Unknown("Writing to forkserver failed."@))
                } else if has_flag(self.send_status, FS_OPT_AUTODICT) {
                    (
                        BuilderView { handshake: HandshakePhase::AwaitDictSize, ..self },
                        HandshakeActionView::ReadDictSize,
                    )
                } else {
                    (
                        BuilderView { handshake: HandshakePhase::Done, ..self },
                        HandshakeActionView::Done { parse_dict: false },
                    )
                }
            },
            (HandshakePhase::AwaitDictSize, HandshakeEvent::DictSize { read, size }) => {
                if read != 4 {
                    self.handshake_failed(ErrorView::Unknown("Reading from forkserver failed."@))
                } else if !(2 <= size <= 0xffffff) {
                    self.handshake_failed(
                        ErrorView::IllegalState("Dictionary has an illegal size"@),
                    )
                } else {
                    (
                        BuilderView {
                            handshake: HandshakePhase::AwaitDict,
                            dict_size: size,
                            ..self
                        },
                        HandshakeActionView::ReadDict { len: size as usize },
                    )
                }
            },
            (HandshakePhase::AwaitDict, HandshakeEvent::Dict { read }) => {
                if read != self.dict_size as usize {
                    self.handshake_failed(ErrorView::Unknown("Failed to load autodictionary"@))
                } else {
                    (
                        BuilderView { handshake: HandshakePhase::Done, ..self },
                        HandshakeActionView::Done { parse_dict: true },
                    )
                }
            },
            _ => self.handshake_failed(
                ErrorView::IllegalState("This step does not follow the step before"@),
            ),
        }
    }
}

/// The builder of a [`ForkserverExecutor`]: it gathers how the target is
/// run, and it goes through the handshake with the forkserver.
#[derive(Debug)]
pub struct ForkserverExecutorBuilder {
    program: Option<String>,
    arguments: Vec<String>,
    envs: Vec<(String, String)>,
    debug_child: bool,
    use_stdin: bool,
    uses_shmem_testcase: bool,
    is_persistent: bool,
    is_deferred_frksrv: bool,
    autotokens: bool,
    input_filename: Option<String>,
    shmem_provider: bool,
    socket_port: Option<u16>,
    socket_client_mode: bool,
    max_input_size: usize,
    map_size: Option<usize>,
    real_map_size: i32,
    kill_signal: Option<i32>,
    timeout: Option<u64>,
    request_response_collector: Option<RequestResponseCollector>,
    handshake: HandshakePhase,
    send_status: i32,
    dict_size: i32,
}

impl View for ForkserverExecutorBuilder {
    type V = BuilderView;

    closed spec fn view(&self) -> BuilderView {
        BuilderView {
            program: text_of(self.program),
            arguments: texts(self.arguments@),
            envs: pair_texts(self.envs@),
            debug_child: self.debug_child,
            use_stdin: self.use_stdin,
            uses_shmem_testcase: self.uses_shmem_testcase,
            is_persistent: self.is_persistent,
            is_deferred_frksrv: self.is_deferred_frksrv,
            autotokens: self.autotokens,
            input_filename: text_of(self.input_filename),
            shmem_provider: self.shmem_provider,
            socket_port: self.socket_port,
            socket_client_mode: self.socket_client_mode,
            max_input_size: self.max_input_size,
            map_size: self.map_size,
            real_map_size: self.real_map_size,
            kill_signal: self.kill_signal,
            timeout: self.timeout,
            collector: match self.request_response_collector {
                Some(c) => Some(c@),
                None => None,
            },
            handshake: self.handshake,
            send_status: self.send_status,
            dict_size: self.dict_size,
        }
    }
}

impl Default for ForkserverExecutorBuilder {
    fn default() -> (r: Self)
        ensures
            r@ == ForkserverExecutorBuilder::initial(),
    {
        Self::new()
    }
}

impl ForkserverExecutor {
    /// The builder of an executor.
    #[must_use]
    pub fn builder() -> (r: ForkserverExecutorBuilder)
        ensures
            r@ == ForkserverExecutorBuilder::initial(),
    {
        ForkserverExecutorBuilder::new()
    }
}

impl ForkserverExecutorBuilder {
    /// The builder before anything was set.
    pub open spec fn initial() -> BuilderView {
        BuilderView {
            program: None,
            arguments: Seq::empty(),
            envs: Seq::empty(),
            debug_child: false,
            use_stdin: false,
            uses_shmem_testcase: false,
            is_persistent: false,
            is_deferred_frksrv: false,
            autotokens: false,
            input_filename: None,
            shmem_provider: false,
            socket_port: None,
            socket_client_mode: false,
            max_input_size: MAX_INPUT_SIZE_DEFAULT,
            map_size: None,
            real_map_size: 0,
            kill_signal: None,
            timeout: None,
            collector: None,
            handshake: HandshakePhase::AwaitHello,
            send_status: 0,
            dict_size: 0,
        }
    }

    /// A builder with nothing set. The input will go over a socket if a
    /// port is given, else in shared memory if there is a provider for it,
    /// else through a file on standard input.
    #[must_use]
    pub fn new() -> (r: Self)
        ensures
            r@ == Self::initial(),
            r@.wf(),
    {
        let r = ForkserverExecutorBuilder {
            program: None,
            arguments: Vec::new(),
            envs: Vec::new(),
            debug_child: false,
            use_stdin: false,
            uses_shmem_testcase: false,
            is_persistent: false,
            is_deferred_frksrv: false,
            autotokens: false,
            input_filename: None,
            shmem_provider: false,
            socket_port: None,
            socket_client_mode: false,
            max_input_size: MAX_INPUT_SIZE_DEFAULT,
            map_size: None,
            real_map_size: 0,
            kill_signal: None,
            timeout: None,
            request_response_collector: None,
            handshake: HandshakePhase::AwaitHello,
            send_status: 0,
            dict_size: 0,
        };
        assert(r@.arguments =~= Seq::<Seq<char>>::empty());
        assert(r@.envs =~= Seq::<(Seq<char>, Seq<char>)>::empty());
        r
    }

    /// Notes that there is a provider of shared memory for inputs. The
    /// largest input is put back to the default, and the signal and the
    /// timeout are unset.
    pub fn shmem_provider(self) -> (r: Self)
        ensures
            r@ == (BuilderView {
                shmem_provider: true,
                max_input_size: MAX_INPUT_SIZE_DEFAULT,
                kill_signal: None,
                timeout: None,
                ..self@
            }),
            r@.wf(),
    {
        let mut moved = self;
        moved.shmem_provider = true;
        moved.max_input_size = MAX_INPUT_SIZE_DEFAULT;
        moved.kill_signal = None;
        moved.timeout = None;
        moved
    }

    /// The input goes over a socket to which the target connects. Of this
    /// and [`Self::socket_client_port`], the one called last counts.
    #[must_use]
    pub fn socket_server_port(self, port: u16) -> (r: Self)
        ensures
            r@ == (BuilderView { socket_port: Some(port), socket_client_mode: false, ..self@ }),
    {
        let mut moved = self;
        moved.socket_port = Some(port);
        moved.socket_client_mode = false;
        moved
    }

    /// The input goes over a socket that is opened to the target. Of this
    /// and [`Self::socket_server_port`], the one called last counts.
    #[must_use]
    pub fn socket_client_port(self, port: u16) -> (r: Self)
        ensures
            r@ == (BuilderView { socket_port: Some(port), socket_client_mode: true, ..self@ }),
    {
        let mut moved = self;
        moved.socket_port = Some(port);
        moved.socket_client_mode = true;
        moved
    }

    /// Notes that there is a store for the tokens of the target's
    /// dictionary.
    #[must_use]
    pub fn autotokens(self) -> (r: Self)
        ensures
            r@ == (BuilderView { autotokens: true, ..self@ }),
    {
        let mut moved = self;
        moved.autotokens = true;
        moved
    }

    /// Sets how long an execution may take, in milliseconds.
    #[must_use]
    pub fn timeout(self, timeout_ms: u64) -> (r: Self)
        ensures
            r@ == (BuilderView { timeout: Some(timeout_ms), ..self@ }),
    {
        let mut moved = self;
        moved.timeout = Some(timeout_ms);
        moved
    }

    /// Sets the program.
    #[must_use]
    pub fn program(self, program: &str) -> (r: Self)
        ensures
            r@ == (BuilderView { program: Some(program@), ..self@ }),
    {
        let mut moved = self;
        moved.program = Some(program.to_owned());
        moved
    }

    /// Adds an argument for the program.
    #[must_use]
    pub fn arg(self, arg: &str) -> (r: Self)
        ensures
            r@ == self@.with_arg(arg@),
    {
        let mut moved = self;
        moved.arguments.push(arg.to_owned());
        assert(texts(moved.arguments@) =~= texts(self.arguments@).push(arg@));
        moved
    }

    /// Adds arguments for the program.
    #[must_use]
    pub fn args(self, args: Vec<String>) -> (r: Self)
        ensures
            r@ == (BuilderView { arguments: self@.arguments + texts(args@), ..self@ }),
    {
        let mut moved = self;
        let mut args = args;
        let ghost given = args@;
        moved.arguments.append(&mut args);
        assert(texts(moved.arguments@) =~= texts(self.arguments@) + texts(given));
        moved
    }

    /// Adds a variable to the environment of the program.
    #[must_use]
    pub fn env(self, key: &str, val: &str) -> (r: Self)
        ensures
            r@ == (BuilderView { envs: self@.envs.push((key@, val@)), ..self@ }),
    {
        let mut moved = self;
        moved.envs.push((key.to_owned(), val.to_owned()));
        assert(pair_texts(moved.envs@) =~= pair_texts(self.envs@).push((key@, val@)));
        moved
    }

    /// Adds variables to the environment of the program.
    #[must_use]
    pub fn envs(self, vars: Vec<(String, String)>) -> (r: Self)
        ensures
            r@ == (BuilderView { envs: self@.envs + pair_texts(vars@), ..self@ }),
    {
        let mut moved = self;
        let mut vars = vars;
        let ghost given = vars@;
        moved.envs.append(&mut vars);
        assert(pair_texts(moved.envs@) =~= pair_texts(self.envs@) + pair_texts(given));
        moved
    }

    /// Puts the path of the input file at this place among the arguments,
    /// and sets it as the name of the input file. An input file of another
    /// name must not have been set before.
    #[must_use]
    pub fn arg_input_file(self, path: &str) -> (r: Self)
        requires
            self@.input_filename is None || self@.input_filename == Some(path@),
        ensures
            r@ == self@.with_input_file(path@),
    {
        let mut moved = self.arg(path);
        moved.input_filename = Some(path.to_owned());
        moved
    }

    /// Puts the input file with the name that is unique to this process at
    /// this place among the arguments. No input file must have been set
    /// before.
    #[must_use]
    pub fn arg_input_file_std(self) -> (r: Self)
        requires
            self@.input_filename is None,
        ensures
            r@.input_filename is Some,
            r@ == self@.with_input_file(r@.input_filename->Some_0),
    {
        let name = unique_std_input_file();
        self.arg_input_file(name.as_str())
    }

    /// Sets whether the target keeps its output.
    #[must_use]
    pub fn debug_child(self, debug_child: bool) -> (r: Self)
        ensures
            r@ == (BuilderView { debug_child, ..self@ }),
    {
        let mut moved = self;
        moved.debug_child = debug_child;
        moved
    }

    /// Sets whether the target runs in persistent mode.
    #[must_use]
    pub fn is_persistent(self, is_persistent: bool) -> (r: Self)
        ensures
            r@ == (BuilderView { is_persistent, ..self@ }),
    {
        let mut moved = self;
        moved.is_persistent = is_persistent;
        moved
    }

    /// Sets whether the target starts its forkserver late.
    #[must_use]
    pub fn is_deferred_frksrv(self, is_deferred_frksrv: bool) -> (r: Self)
        ensures
            r@ == (BuilderView { is_deferred_frksrv, ..self@ }),
    {
        let mut moved = self;
        moved.is_deferred_frksrv = is_deferred_frksrv;
        moved
    }

    /// Sets the size of the coverage map.
    #[must_use]
    pub fn coverage_map_size(self, size: usize) -> (r: Self)
        ensures
            r@ == (BuilderView { map_size: Some(size), ..self@ }),
    {
        let mut moved = self;
        moved.map_size = Some(size);
        moved
    }

    /// Sets the number of the signal that ends a child that ran out of
    /// time.
    #[must_use]
    pub fn kill_signal(self, kill_signal: i32) -> (r: Self)
        ensures
            r@ == (BuilderView { kill_signal: Some(kill_signal), ..self@ }),
    {
        let mut moved = self;
        moved.kill_signal = Some(kill_signal);
        moved
    }

    /// Attaches a collector of traces. It records only where the input
    /// goes over a socket.
    #[must_use]
    pub fn collect_request_response_pairs(self, collector: RequestResponseCollector) -> (r: Self)
        ensures
            r@ == (BuilderView { collector: Some(collector@), ..self@ }),
    {
        let mut moved = self;
        moved.request_response_collector = Some(collector);
        moved
    }

    /// How the input will reach the target.
    pub fn input_mode(&self) -> (r: InputMode)
        ensures
            r == self@.input_mode(),
    {
        match self.socket_port {
            Some(port) => {
                if self.socket_client_mode {
                    InputMode::SocketClient(port)
                } else {
                    InputMode::SocketServer(port)
                }
            },
            None => {
                if self.shmem_provider {
                    InputMode::Shmem
                } else {
                    InputMode::Stdin
                }
            },
        }
    }

    /// Where the handshake stands.
    pub fn handshake(&self) -> (r: HandshakePhase)
        ensures
            r == self@.handshake,
    {
        self.handshake
    }

    /// The size of the coverage map as set or as the target reported it.
    pub fn map_size(&self) -> (r: Option<usize>)
        ensures
            r == self@.map_size,
    {
        self.map_size
    }

    /// Tells whether the builder holds its invariant, see
    /// [`BuilderView::wf`].
    pub fn is_well_formed(&self) -> (r: bool)
        ensures
            r == self@.wf(),
    {
        self.max_input_size <= usize::MAX - SHMEM_FUZZ_HDR_SIZE
    }

    /// Tells whether a hello word can be taken, see
    /// [`BuilderView::hello_fits`].
    pub fn hello_fits(&self, status: i32) -> (r: bool)
        ensures
            r == self@.hello_fits(status),
    {
        if flag_is_set(status, FS_OPT_ENABLED) && flag_is_set(status, FS_OPT_MAPSIZE) {
            let reported = round_up_map_size(fs_opt_get_mapsize(status)) as usize;
            match self.map_size {
                Some(size) => reported <= size,
                None => true,
            }
        } else {
            true
        }
    }

    /// Takes a command line in the style of AFL. Where no program was set,
    /// the first item is the program. An item `@@` stands for the input
    /// file: it is replaced by the name of the input file that was set, or
    /// else by the name that is unique to this process, which is then set.
    /// All other items are arguments. In the end the input goes to
    /// standard input unless an input file was named.
    #[must_use]
    pub fn parse_afl_cmdline(self, args: &Vec<String>) -> (r: Self)
        ensures
            exists|std_name: Seq<char>| r@ == #[trigger] self@.parse_cmdline(texts(args@), std_name),
    {
        let std_name = unique_std_input_file();
        let at = "@@".to_owned();
        let mut moved = self;
        let mut i: usize = 0;
        let ghost items = texts(args@);
        let ghost start = self@;
        if moved.program.is_none() && args.len() > 0 {
            moved = moved.program(args[0].as_str());
            i = 1;
            proof {
                start = moved@;
                items = texts(args@).subrange(1, args@.len() as int);
            }
        }
        let first: usize = i;
        assert(items.take(0) =~= Seq::<Seq<char>>::empty());
        while i < args.len()
            invariant
                first <= i <= args@.len(),
                first <= 1,
                items == texts(args@).subrange(first as int, args@.len() as int),
                moved@ == start.parse_items(items.take(i - first), std_name@),
                at@ == "@@"@,
            decreases args@.len() - i,
        {
            proof {
                assert(items.take(i + 1 - first).drop_last() == items.take(i - first));
                assert(items.take(i + 1 - first).last() == args@[i as int]@);
            }
            if args[i] == at {
                let name = match &moved.input_filename {
                    Some(name) => name.clone(),
                    None => std_name.clone(),
                };
                moved = moved.arg_input_file(name.as_str());
            } else {
                moved = moved.arg(args[i].as_str());
            }
            i = i + 1;
        }
        assert(items.take(i - first) == items);
        moved.use_stdin = moved.input_filename.is_none();
        assert(moved@ == self@.parse_cmdline(texts(args@), std_name@));
        moved
    }

    /// What is to be done before the handshake: the input file where the
    /// input goes to standard input, the shared input memory where there
    /// is a provider for it, and the forkserver itself. Where no program
    /// was named, the plan holds `IllegalArgument` in place of the target;
    /// the file and the memory are made first even then.
    pub fn build_helper(&self) -> (r: SpawnPlan)
        requires
            self@.wf(),
        ensures
            r.input_mode == self@.input_mode(),
            (match r.input_file {
                InputFilePlan::NoFile => self@.input_file_plan() is None,
                InputFilePlan::Named(name) => self@.input_file_plan() == Some(Some(name@)),
                InputFilePlan::Standard => self@.input_file_plan() == Some(None::<Seq<char>>),
            }),
            r.shmem_len == self@.shmem_len(),
            r.target is Ok <==> self@.program is Some,
            r.target is Err ==> r.target->Err_0@ == ErrorView::IllegalArgument(
                "ForkserverExecutorBuilder::build: target file not found"@,
            ),
            r.target is Ok ==> {
                let t = r.target->Ok_0;
                &&& t.program@ == self@.program->Some_0
                &&& texts(t.arguments@) == self@.arguments
                &&& pair_texts(t.envs@) == spawn_environment(
                    self@.is_persistent,
                    self@.is_deferred_frksrv,
                    self@.envs,
                )
                &&& t.use_stdin == (self@.input_mode() is Stdin)
                &&& t.memlimit == 0
                &&& t.debug_child == self@.debug_child
                &&& t.kill_signal == self@.chosen_kill_signal()
            },
    {
        let input_mode = self.input_mode();
        let use_stdin = matches!(input_mode, InputMode::Stdin);
        let input_file = if use_stdin {
            match &self.input_filename {
                Some(name) => InputFilePlan::Named(name.clone()),
                None => InputFilePlan::Standard,
            }
        } else {
            InputFilePlan::NoFile
        };
        let shmem_len = if self.shmem_provider {
            Some(self.max_input_size + SHMEM_FUZZ_HDR_SIZE)
        } else {
            None
        };
        let target = match &self.program {
            Some(t) => Ok(
                SpawnTarget {
                    program: t.clone(),
                    arguments: clone_strings(&self.arguments),
                    envs: forkserver_environment(
                        self.is_persistent,
                        self.is_deferred_frksrv,
                        clone_string_pairs(&self.envs),
                    ),
                    use_stdin,
                    memlimit: 0,
                    debug_child: self.debug_child,
                    kill_signal: match self.kill_signal {
                        Some(signal) => signal,
                        None => sigterm(),
                    },
                },
            ),
            None => Err(
                Error::illegal_argument("ForkserverExecutorBuilder::build: target file not found"),
            ),
        };
        SpawnPlan { input_mode, input_file, shmem_len, target }
    }

    /// Fails the handshake.
    fn fail_handshake(&mut self, e: Error) -> (r: HandshakeAction)
        ensures
            (final(self)@, r@) == old(self)@.handshake_failed(e@),
    {
        self.handshake = HandshakePhase::Failed;
        HandshakeAction::Fail(e)
    }

    /// Takes the hello word of the forkserver.
    fn take_hello(&mut self, read: usize, status: i32) -> (r: HandshakeAction)
        requires
            old(self)@.hello_fits(status),
        ensures
            (final(self)@, r@) == old(self)@.after_hello(read, status),
    {
        if read != 4 {
            return self.fail_handshake(Error::unknown("Failed to start a forkserver"));
        }
        let enabled = flag_is_set(status, FS_OPT_ENABLED);
        if enabled && flag_is_set(status, FS_OPT_MAPSIZE) {
            let map_size = fs_opt_get_mapsize(status);
            self.real_map_size = map_size;
            self.map_size = Some(round_up_map_size(map_size) as usize);
        }
        let shmem = flag_is_set(status, FS_OPT_SHDMEM_FUZZ) && self.shmem_provider;
        let autodict = flag_is_set(status, FS_OPT_AUTODICT) && self.autotokens;
        if enabled && shmem {
            self.uses_shmem_testcase = true;
        }
        if enabled && (shmem || autodict) {
            let word = FS_OPT_ENABLED | (if shmem {
                FS_OPT_SHDMEM_FUZZ
            } else {
                0i32
            }) | (if autodict {
                FS_OPT_AUTODICT
            } else {
                0i32
            });
            self.send_status = word;
            self.handshake = HandshakePhase::AwaitAck;
            HandshakeAction::WriteCtl { word }
        } else {
            self.handshake = HandshakePhase::Done;
            HandshakeAction::Done { parse_dict: false }
        }
    }

    /// Takes what came of the last action of the handshake and says what
    /// to do next. First the hello word of the forkserver is read: it says
    /// which options the forkserver offers and may carry the size of the
    /// coverage map. The options that are taken are acknowledged; if none
    /// is, nothing is written. Where the dictionary was taken, its size
    /// and then its bytes are read. A hello word that carries a map size
    /// larger than the size that was set is not to be handed in.
    pub fn handshake_step(&mut self, event: HandshakeEvent) -> (r: HandshakeAction)
        requires
            old(self)@.handshake is AwaitHello && event is Hello ==> old(self)@.hello_fits(
                event->Hello_status,
            ),
        ensures
            (final(self)@, r@) == old(self)@.handshake_step(event),
            old(self)@.wf() ==> final(self)@.wf(),
    {
        match (self.handshake, event) {
            (HandshakePhase::AwaitHello, HandshakeEvent::Hello { read, status }) => self.take_hello(
                read,
                status,
            ),
            (HandshakePhase::AwaitAck, HandshakeEvent::AckWritten { written }) => {
                if written != 4 {
                    self.fail_handshake(Error::unknown("Writing to forkserver failed."))
                } else if flag_is_set(self.send_status, FS_OPT_AUTODICT) {
                    self.handshake = HandshakePhase::AwaitDictSize;
                    HandshakeAction::ReadDictSize
                } else {
                    self.handshake = HandshakePhase::Done;
                    HandshakeAction::Done { parse_dict: false }
                }
            },
            (HandshakePhase::AwaitDictSize, HandshakeEvent::DictSize { read, size }) => {
                if read != 4 {
                    self.fail_handshake(Error::unknown("Reading from forkserver failed."))
                } else if !(2 <= size && size <= 0xffffff) {
                    self.fail_handshake(Error::illegal_state("Dictionary has an illegal size"))
                } else {
                    self.dict_size = size;
                    self.handshake = HandshakePhase::AwaitDict;
                    HandshakeAction::ReadDict { len: size as usize }
                }
            },
            (HandshakePhase::AwaitDict, HandshakeEvent::Dict { read }) => {
                if read != self.dict_size as usize {
                    self.fail_handshake(Error::unknown("Failed to load autodictionary"))
                } else {
                    self.handshake = HandshakePhase::Done;
                    HandshakeAction::Done { parse_dict: true }
                }
            },
            _ => self.fail_handshake(
                Error::illegal_state("This step does not follow the step before"),
            ),
        }
    }

    /// Puts the executor together.
    fn assemble(&mut self, client_connector: bool) -> (r: Result<ForkserverExecutor, Error>)
        requires
            old(self)@.wf(),
        ensures
            r is Err <==> old(self)@.build_error() is Some,
            r is Err ==> r->Err_0@ == old(self)@.build_error()->Some_0,
            r is Ok ==> r->Ok_0@ == old(self)@.built(client_connector),
            r is Ok ==> final(self)@ == (BuilderView {
                program: None,
                collector: None,
                ..old(self)@
            }),
            r is Err ==> final(self)@ == (BuilderView {
                program: if old(self)@.handshake is Done {
                    None
                } else {
                    old(self)@.program
                },
                ..old(self)@
            }),
    {
        if !matches!(self.handshake, HandshakePhase::Done) {
            return Err(Error::illegal_state("The handshake with the forkserver is not done"));
        }
        let input_mode = self.input_mode();
        let target = match self.program.take() {
            Some(target) => target,
            None => {
                return Err(
                    Error::illegal_argument(
                        "ForkserverExecutorBuilder::build: target file not found",
                    ),
                );
            },
        };
        let socket_con = match input_mode {
            InputMode::SocketServer(port) => Some(SocketConnector::new_server(port)),
            InputMode::SocketClient(port) => {
                if client_connector {
                    Some(SocketConnector::new_client(port))
                } else {
                    None
                }
            },
            _ => None,
        };
        if self.uses_shmem_testcase && !self.shmem_provider {
            return Err(Error::illegal_state("Map must always be set for `uses_shmem_testcase`"));
        }
        let timeout_ms = match self.timeout {
            Some(ms) => ms,
            None => DEFAULT_TIMEOUT_MS,
        };
        let kill_signal = match self.kill_signal {
            Some(signal) => signal,
            None => sigterm(),
        };
        Ok(
            ForkserverExecutor {
                target,
                args: clone_strings(&self.arguments),
                input_mode,
                forkserver: Forkserver::with_kill_signal(kill_signal),
                map_len: if self.shmem_provider {
                    Some(self.max_input_size + SHMEM_FUZZ_HDR_SIZE)
                } else {
                    None
                },
                map_size: self.map_size,
                timeout_ms,
                request_response_collector: self.request_response_collector.take(),
                socket_con,
                phase: RunPhase::Idle,
                exit_kind: ExitKind::Okay,
            },
        )
    }

    /// Builds the executor, once the handshake is done. Fails with
    /// `IllegalState` where the handshake is not done or where inputs in
    /// shared memory were agreed on without shared memory for them, and
    /// with `IllegalArgument` where no program is named. The program and
    /// the collector go over to the executor.
    pub fn build(&mut self) -> (r: Result<ForkserverExecutor, Error>)
        requires
            old(self)@.wf(),
        ensures
            r is Err <==> old(self)@.build_error() is Some,
            r is Err ==> r->Err_0@ == old(self)@.build_error()->Some_0,
            r is Ok ==> r->Ok_0@ == old(self)@.built(true),
            r is Ok ==> r->Ok_0@.wf(),
            r is Ok ==> final(self)@ == (BuilderView {
                program: None,
                collector: None,
                ..old(self)@
            }),
    {
        self.assemble(true)
    }

    /// Builds the executor as [`Self::build`] does, for a coverage map
    /// that the caller cuts down to the size that the executor then
    /// reports. Of the socket connectors only the one of server mode is
    /// made, so that an executor for client mode lacks its connector and
    /// is not fit to run.
    pub fn build_dynamic_map(&mut self) -> (r: Result<ForkserverExecutor, Error>)
        requires
            old(self)@.wf(),
        ensures
            r is Err <==> old(self)@.build_error() is Some,
            r is Err ==> r->Err_0@ == old(self)@.build_error()->Some_0,
            r is Ok ==> r->Ok_0@ == old(self)@.built(false),
            r is Ok ==> (r->Ok_0@.wf() <==> !(old(self)@.input_mode() is SocketClient)),
            r is Ok ==> final(self)@ == (BuilderView {
                program: None,
                collector: None,
                ..old(self)@
            }),
    {
        self.assemble(false)
    }
}

/// In every input mode the child gets to see the bytes that were supplied,
/// cut off at what the mode holds. Over standard input and over a socket
/// that is the whole input. In shared memory it is the input up to the
/// length of the memory without the header, it stands right behind the
/// header, and the header gives its length.
pub proof fn law_child_sees_input_up_to_capacity(v: ExecutorView, input: Seq<u8>)
    requires
        v.wf(),
    ensures
        v.observed(input).len() <= input.len(),
        v.observed(input) == input.take(v.observed(input).len() as int),
        !(v.input_mode is Shmem) ==> v.observed(input) == input,
        v.input_mode is Shmem ==> {
            let capacity = v.map_len->Some_0 - SHMEM_FUZZ_HDR_SIZE;
            &&& v.observed(input).len() == (if input.len() <= capacity {
                input.len() as int
            } else {
                capacity
            })
            &&& input.len() <= capacity ==> v.observed(input) == input
            &&& envelope(input, v.map_len->Some_0 as int) == length_header(
                v.observed(input).len() as int,
            ) + v.observed(input)
            &&& envelope(input, v.map_len->Some_0 as int).skip(SHMEM_FUZZ_HDR_SIZE as int)
                == v.observed(input)
        },
{
    assert(input.take(input.len() as int) == input);
    if v.input_mode is Shmem {
        let e = envelope(input, v.map_len->Some_0 as int);
        assert(e.skip(SHMEM_FUZZ_HDR_SIZE as int) =~= v.observed(input));
    }
}

/// The steps of an execution come in one order: the control word is
/// written before the identifier of the child is read, that is read before
/// the input goes over the socket, that before the status is read, and the
/// status before the exchange is recorded. Whatever the event, a step leads
/// from a phase only to a later one, or ends the execution.
pub proof fn law_steps_in_order(v: ExecutorView, event: RunEvent)
    ensures
        ({
            let next = v.step(event).0.phase;
            match v.phase {
                RunPhase::Idle => next is Idle,
                RunPhase::AwaitCtl => next is AwaitPid || next is Idle,
                RunPhase::AwaitPid => next is AwaitSend || next is AwaitStatus || next is Idle,
                RunPhase::AwaitSend => next is AwaitStatus || next is Idle,
                RunPhase::AwaitStatus => next is AwaitStatusAfterKill || next is AwaitRecord || next
                    is Idle,
                RunPhase::AwaitStatusAfterKill => next is AwaitRecord || next is Idle,
                RunPhase::AwaitRecord => next is Idle,
            }
        }),
        v.step(event).1 is Done || v.step(event).1 is Fail <==> v.step(event).0.phase is Idle,
{
}

/// An execution classifies only what a child did. After the child was
/// ended on purpose, the forkserver is asked for a new one with the next
/// control word; and whatever the events of the next execution are, it
/// comes to a classification only after the identifier of a child was read
/// from the forkserver in that very execution, and a child that is on the
/// books afterwards is the one that was read. That the new identifier
/// differs from the old one is up to the forkserver.
pub proof fn law_classification_needs_child(v: ExecutorView, events: Seq<RunEvent>, last: RunEvent)
    requires
        v.wf(),
    ensures
        v.without_child().forkserver.child_pid is None,
        v.without_child().begin().1 == (RunActionView::Prepare {
            start_new_trace: v.collector is Some,
            delivery: v.without_child().delivery(),
            ctl_word: 1,
        }),
        v.without_child().begin().0.after(events).step(last).1 is Done ==> {
            let end = v.without_child().begin().0.after(events).step(last).0;
            &&& ExecutorView::child_read_last(events) is Some
            &&& end.forkserver.child_pid is Some ==> end.forkserver.child_pid
                == ExecutorView::child_read_last(events)
        },
{
    lemma_phase_needs_child(v.without_child().begin().0, events);
}

/// From the beginning of an execution on, the executor waits for a status
/// or for the record only after the identifier of a child was read, and the
/// child on the books is then the one that was read last.
pub proof fn lemma_phase_needs_child(begun: ExecutorView, events: Seq<RunEvent>)
    requires
        begun.phase is AwaitCtl,
    ensures
        ({
            let phase = begun.after(events).phase;
            phase is AwaitSend || phase is AwaitStatus || phase is AwaitStatusAfterKill || phase
                is AwaitRecord
        }) ==> ExecutorView::child_read_last(events) is Some && begun.after(
            events,
        ).forkserver.child_pid == ExecutorView::child_read_last(events),
    decreases events.len(),
{
    if events.len() > 0 {
        lemma_phase_needs_child(begun, events.drop_last());
    }
}

} // verus!
