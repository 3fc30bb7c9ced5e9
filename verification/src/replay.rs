//! Keeping what was sent to the target and what came back, trace by trace.
//!
//! A trace is the sequence of requests and responses of one life of the
//! target process. It is kept only if that process crashed.

use vstd::prelude::*;
use crate::error::Error;
use crate::error::ErrorView;
use crate::executor::forkserver::ExitKind;
use crate::trusted::decimal_text;
use crate::trusted::decimal_string;

verus! {

/// The tag under which an exit classification is written into a trace.
pub open spec fn exit_kind_tag(exit_kind: ExitKind) -> Seq<char> {
    match exit_kind {
        ExitKind::Okay => "Ok"@,
        ExitKind::Crash => "Cr"@,
        ExitKind::Oom => "Oo"@,
        ExitKind::Timeout => "Tm"@,
        ExitKind::Diff => "Diff"@,
    }
}

/// One entry of a trace: how the execution ended, what was sent, and what
/// came back.
#[derive(Debug)]
pub struct RequestResponsePair<'a> {
    ek: String,
    req: &'a [u8],
    resp: &'a [u8],
}

impl<'a> RequestResponsePair<'a> {
    /// The tag of the exit classification.
    pub closed spec fn spec_ek(&self) -> Seq<char> {
        self.ek@
    }

    /// The bytes of the request.
    pub closed spec fn spec_req(&self) -> Seq<u8> {
        self.req@
    }

    /// The bytes of the response.
    pub closed spec fn spec_resp(&self) -> Seq<u8> {
        self.resp@
    }

    /// The entry for an execution that ended as `exit_kind` says: the
    /// request and the response as they are, the exit kind as its tag.
    pub fn new(exit_kind: ExitKind, request: &'a [u8], response: &'a [u8]) -> (r: Self)
        ensures
            r.spec_ek() == exit_kind_tag(exit_kind),
            r.spec_req() == request@,
            r.spec_resp() == response@,
    {
        let ek = match exit_kind {
            ExitKind::Okay => "Ok",
            ExitKind::Crash => "Cr",
            ExitKind::Oom => "Oo",
            ExitKind::Timeout => "Tm",
            ExitKind::Diff => "Diff",
        };
        RequestResponsePair { ek: ek.to_owned(), req: request, resp: response }
    }

    /// The tag of the exit classification.
    pub fn ek(&self) -> (r: &String)
        ensures
            r@ == self.spec_ek(),
    {
        &self.ek
    }

    /// The bytes of the request.
    pub fn req(&self) -> (r: &'a [u8])
        ensures
            r@ == self.spec_req(),
    {
        self.req
    }

    /// The bytes of the response.
    pub fn resp(&self) -> (r: &'a [u8])
        ensures
            r@ == self.spec_resp(),
    {
        self.resp
    }
}

/// The largest number of bytes of a response that are kept.
pub const RESPONSE_CAPACITY: usize = 4096;

/// What is written in place of a response that could not be read.
pub open spec fn unreadable_response() -> Seq<u8> {
    seq![76u8, 105u8, 98u8, 65u8, 70u8, 76u8, 83u8, 116u8, 97u8, 114u8, 95u8, 101u8, 114u8, 114u8]
}

/// The response to keep for what reading from the target gave: the bytes
/// that were read, or, where reading failed, the characters
/// `LibAFLStar_err`.
pub fn response_to_record(read: Option<Vec<u8>>) -> (r: Vec<u8>)
    ensures
        r@ == (match read {
            Some(bytes) => bytes@,
            None => unreadable_response(),
        }),
{
    match read {
        Some(bytes) => bytes,
        None => {
            let mut marker: Vec<u8> = Vec::new();
            marker.push(76u8);
            marker.push(105u8);
            marker.push(98u8);
            marker.push(65u8);
            marker.push(70u8);
            marker.push(76u8);
            marker.push(83u8);
            marker.push(116u8);
            marker.push(97u8);
            marker.push(114u8);
            marker.push(95u8);
            marker.push(101u8);
            marker.push(114u8);
            marker.push(114u8);
            assert(marker@ =~= unreadable_response());
            marker
        },
    }
}

/// What is found at the path where the traces are to go.
#[derive(Debug, Clone, Copy, PartialEq, Eq, Structural)]
pub enum FoundAtPath {
    /// Nothing is there.
    Nothing,
    /// A directory is there.
    Directory,
    /// Something is there that is no directory.
    Other,
}

/// The collector of traces: it knows the directory of the traces and the
/// number of the trace that is being written. The file of that trace is the
/// caller's to open and to write.
#[derive(Debug)]
pub struct RequestResponseCollector {
    traces_dir: String,
    trace_no: usize,
}

/// The collector as contracts speak of it.
pub ghost struct CollectorView {
    /// The directory of the traces.
    pub traces_dir: Seq<char>,
    /// The number of the trace that is being written.
    pub trace_no: usize,
}

impl View for RequestResponseCollector {
    type V = CollectorView;

    closed spec fn view(&self) -> CollectorView {
        CollectorView { traces_dir: self.traces_dir@, trace_no: self.trace_no }
    }
}

impl RequestResponseCollector {
    /// A collector for the directory at `path`, about to write the trace of
    /// number 0, and whether the directory has to be made first. Fails with
    /// `IllegalArgument` where the path names something that is no
    /// directory.
    pub fn new(path: &str, found: FoundAtPath) -> (r: Result<(Self, bool), Error>)
        ensures
            r is Err <==> found is Other,
            r is Err ==> r->Err_0@ == ErrorView::IllegalArgument(
                "Path to replay dir is a file that already exists."@,
            ),
            r is Ok ==> r->Ok_0.0@ == (CollectorView { traces_dir: path@, trace_no: 0 }),
            r is Ok ==> r->Ok_0.1 == (found is Nothing),
    {
        let make_dir = match found {
            FoundAtPath::Directory => false,
            FoundAtPath::Other => {
                return Err(
                    Error::illegal_argument("Path to replay dir is a file that already exists."),
                );
            },
            FoundAtPath::Nothing => true,
        };
        Ok((RequestResponseCollector { traces_dir: path.to_owned(), trace_no: 0 }, make_dir))
    }

    /// The directory of the traces.
    pub fn traces_dir(&self) -> (r: &String)
        ensures
            r@ == self@.traces_dir,
    {
        &self.traces_dir
    }

    /// The number of the trace that is being written.
    pub fn trace_no(&self) -> (r: usize)
        ensures
            r == self@.trace_no,
    {
        self.trace_no
    }

    /// Keeps the trace that is being written: the next trace goes to the
    /// file of the next number, so this one is not written over.
    pub fn save_this_trace(&mut self)
        requires
            old(self)@.trace_no < usize::MAX,
        ensures
            final(self)@ == (CollectorView {
                trace_no: (old(self)@.trace_no + 1) as usize,
                ..old(self)@
            }),
    {
        self.trace_no = self.trace_no + 1;
    }

    /// The name of the file to open, and to empty, for a new trace: that of
    /// the current number. Unless the trace before was kept, this is the
    /// file it went to.
    pub fn start_new_trace(&self) -> (r: String)
        ensures
            r@ == "trace_"@ + decimal_text(self@.trace_no as nat) + ".cbor"@,
    {
        Self::get_filename(self.trace_no)
    }

    /// The name of the file that holds the trace of the given number.
    pub fn get_filename(trace_no: usize) -> (r: String)
        ensures
            r@ == "trace_"@ + decimal_text(trace_no as nat) + ".cbor"@,
    {
        String::from_str("trace_").concat(decimal_string(trace_no).as_str()).concat(".cbor")
    }
}

} // verus!
