//! The exchange with an open port, as a machine that a driver steps: the
//! machine decides, the driver writes and reads.

use crate::protocol::{
    decode_reply, frame_query, framed, reply_of, reply_view, IoErrorKind, ProbeError,
    ProbeErrorView, LINE_FEED,
};
use vstd::prelude::*;
use vstd::string::*;

verus! {

/// What the driver of a port reports back after it has carried out a request.
#[derive(Debug, PartialEq, Eq)]
pub enum PortEvent {
    /// The port is open.
    Opened,
    /// The port could not be opened.
    OpenFailed { message: String },
    /// One write took this many bytes.
    Wrote { count: usize },
    /// One read returned these bytes; none at the end of the stream.
    Received { bytes: Vec<u8> },
    /// A write or a read failed.
    Failed { kind: IoErrorKind, message: String },
}

/// The mathematical value of a `PortEvent`.
pub enum PortEventView {
    Opened,
    OpenFailed { message: Seq<char> },
    Wrote { count: nat },
    Received { bytes: Seq<u8> },
    Failed { kind: IoErrorKind, message: Seq<char> },
}

impl View for PortEvent {
    type V = PortEventView;

    open spec fn view(&self) -> PortEventView {
        match self {
            PortEvent::Opened => PortEventView::Opened,
            PortEvent::OpenFailed { message } => PortEventView::OpenFailed { message: message@ },
            PortEvent::Wrote { count } => PortEventView::Wrote { count: *count as nat },
            PortEvent::Received { bytes } => PortEventView::Received { bytes: bytes@ },
            PortEvent::Failed { kind, message } => PortEventView::Failed {
                kind: *kind,
                message: message@,
            },
        }
    }
}

/// What a probe asks the driver of a port to do next.
#[derive(Debug, PartialEq, Eq)]
pub enum PortRequest {
    /// Open the port with eight data bits, no parity and one stop bit, and
    /// close the one that was open before.
    Open { port_name: String, baud_rate: u32, timeout_ms: u64 },
    /// Write these bytes, or as many of them as one write takes.
    Write { bytes: Vec<u8> },
    /// Read once.
    Read,
}

/// The mathematical value of a `PortRequest`.
pub enum PortRequestView {
    Open { port_name: Seq<char>, baud_rate: u32, timeout_ms: u64 },
    Write { bytes: Seq<u8> },
    Read,
}

impl View for PortRequest {
    type V = PortRequestView;

    open spec fn view(&self) -> PortRequestView {
        match self {
            PortRequest::Open { port_name, baud_rate, timeout_ms } => PortRequestView::Open {
                port_name: port_name@,
                baud_rate: *baud_rate,
                timeout_ms: *timeout_ms,
            },
            PortRequest::Write { bytes } => PortRequestView::Write { bytes: bytes@ },
            PortRequest::Read => PortRequestView::Read,
        }
    }
}

/// `at` is the index of the first line feed in `bytes`.
pub open spec fn first_line_feed_at(bytes: Seq<u8>, at: int) -> bool {
    &&& 0 <= at < bytes.len()
    &&& bytes[at] == LINE_FEED
    &&& forall|j: int| 0 <= j < at ==> bytes[j] != LINE_FEED
}

/// The index of the first line feed in `bytes`, where there is one.
pub open spec fn first_line_feed(bytes: Seq<u8>) -> Option<int> {
    if bytes.contains(LINE_FEED) {
        Some(choose|at: int| first_line_feed_at(bytes, at))
    } else {
        None
    }
}

/// There is one first line feed at most.
pub proof fn lemma_first_line_feed_unique(bytes: Seq<u8>, at: int)
    requires
        first_line_feed_at(bytes, at),
    ensures
        first_line_feed(bytes) == Some(at),
{
    let chosen = choose|k: int| first_line_feed_at(bytes, k);
    assert(first_line_feed_at(bytes, chosen));
    if chosen < at {
        assert(bytes[chosen] != LINE_FEED);
    } else if at < chosen {
        assert(bytes[at] != LINE_FEED);
    }
}

/// The first line feed of bytes that hold one.
proof fn lemma_least_line_feed(bytes: Seq<u8>, bound: int) -> (at: int)
    requires
        0 <= bound < bytes.len(),
        bytes[bound] == LINE_FEED,
    ensures
        first_line_feed_at(bytes, at),
        at <= bound,
    decreases bound,
{
    if exists|j: int| 0 <= j < bound && bytes[j] == LINE_FEED {
        let j = choose|j: int| 0 <= j < bound && bytes[j] == LINE_FEED;
        lemma_least_line_feed(bytes, j)
    } else {
        bound
    }
}

/// Finds the first line feed.
pub fn find_line_feed(bytes: &Vec<u8>) -> (found: Option<usize>)
    ensures
        match found {
            Some(at) => at < bytes.len() && first_line_feed(bytes@) == Some(at as int),
            None => first_line_feed(bytes@) is None,
        },
{
    let mut at: usize = 0;
    while at < bytes.len()
        invariant
            at <= bytes.len(),
            forall|j: int| 0 <= j < at ==> bytes@[j] != LINE_FEED,
        decreases bytes.len() - at,
    {
        if bytes[at] == LINE_FEED {
            proof {
                lemma_first_line_feed_unique(bytes@, at as int);
            }
            return Some(at);
        }
        at += 1;
    }
    None
}

/// A copy of `bytes` from index `start` on.
fn copy_from(bytes: &Vec<u8>, start: usize) -> (tail: Vec<u8>)
    requires
        start <= bytes.len(),
    ensures
        tail@ == bytes@.subrange(start as int, bytes.len() as int),
{
    let mut tail: Vec<u8> = Vec::new();
    let mut at: usize = start;
    while at < bytes.len()
        invariant
            start <= at <= bytes.len(),
            tail@ == bytes@.subrange(start as int, at as int),
        decreases bytes.len() - at,
    {
        tail.push(bytes[at]);
        at += 1;
    }
    tail
}

/// The exchange with an open port: the query goes out in full, then the reply
/// is gathered up to its first line feed.
#[derive(Debug)]
pub struct Exchange {
    unsent: Vec<u8>,
    line: Vec<u8>,
}

/// The mathematical value of an `Exchange`.
pub struct ExchangeView {
    /// The bytes of the query that no write has taken yet.
    pub unsent: Seq<u8>,
    /// The bytes of the reply that were read so far.
    pub line: Seq<u8>,
}

impl ExchangeView {
    /// No line feed was read yet: the first one ends the exchange.
    pub open spec fn well_formed(self) -> bool {
        forall|j: int| 0 <= j < self.line.len() ==> self.line[j] != LINE_FEED
    }

    /// What the exchange waits for: a write while bytes of the query are
    /// left, a read after that.
    pub open spec fn request(self) -> PortRequestView {
        if self.unsent.len() > 0 {
            PortRequestView::Write { bytes: self.unsent }
        } else {
            PortRequestView::Read
        }
    }
}

/// How an exchange goes on after an event.
#[derive(Debug)]
pub enum ExchangeStep {
    /// The exchange is not over: carry out its request.
    Pending { exchange: Exchange },
    /// The exchange is over.
    Done { reply: Result<String, ProbeError> },
}

/// The mathematical value of an `ExchangeStep`.
pub enum ExchangeStepView {
    Pending { exchange: ExchangeView },
    Done { reply: Result<Seq<char>, ProbeErrorView> },
}

impl View for ExchangeStep {
    type V = ExchangeStepView;

    open spec fn view(&self) -> ExchangeStepView {
        match self {
            ExchangeStep::Pending { exchange } => ExchangeStepView::Pending {
                exchange: exchange@,
            },
            ExchangeStep::Done { reply } => ExchangeStepView::Done { reply: reply_view(*reply) },
        }
    }
}

/// The message of the error that ends an exchange when a write takes no
/// bytes.
pub open spec fn write_zero_message() -> Seq<char> {
    "failed to write whole buffer"@
}

/// What precedes the transport's own message when a read fails.
pub open spec fn read_failure_prefix() -> Seq<char> {
    "Error during read operation: "@
}

/// The exchange after a write or an event that answers a write.
pub open spec fn write_step(exchange: ExchangeView, event: PortEventView) -> ExchangeStepView {
    match event {
        PortEventView::Wrote { count } => if count == 0 {
            ExchangeStepView::Done {
                reply: Err(
                    ProbeErrorView::Io {
                        kind: IoErrorKind::WriteZero,
                        message: write_zero_message(),
                    },
                ),
            }
        } else if count >= exchange.unsent.len() {
            ExchangeStepView::Pending {
                exchange: ExchangeView { unsent: Seq::empty(), line: exchange.line },
            }
        } else {
            ExchangeStepView::Pending {
                exchange: ExchangeView {
                    unsent: exchange.unsent.subrange(count as int, exchange.unsent.len() as int),
                    line: exchange.line,
                },
            }
        },
        PortEventView::Failed { kind, message } => if kind == IoErrorKind::Interrupted {
            ExchangeStepView::Pending { exchange }
        } else {
            ExchangeStepView::Done { reply: Err(ProbeErrorView::Io { kind, message }) }
        },
        _ => ExchangeStepView::Pending { exchange },
    }
}

/// The exchange after a read or an event that answers a read.
pub open spec fn read_step(exchange: ExchangeView, event: PortEventView) -> ExchangeStepView {
    match event {
        PortEventView::Received { bytes } => if bytes.len() == 0 {
            ExchangeStepView::Done { reply: reply_of(exchange.line) }
        } else {
            match first_line_feed(bytes) {
                Some(at) => ExchangeStepView::Done {
                    reply: reply_of(exchange.line + bytes.subrange(0, at + 1)),
                },
                None => ExchangeStepView::Pending {
                    exchange: ExchangeView {
                        unsent: exchange.unsent,
                        line: exchange.line + bytes,
                    },
                },
            }
        },
        PortEventView::Failed { kind, message } => if kind == IoErrorKind::Interrupted {
            ExchangeStepView::Pending { exchange }
        } else if kind == IoErrorKind::TimedOut {
            ExchangeStepView::Done { reply: Err(ProbeErrorView::Timeout) }
        } else {
            ExchangeStepView::Done {
                reply: Err(ProbeErrorView::Io { kind, message: read_failure_prefix() + message }),
            }
        },
        _ => ExchangeStepView::Pending { exchange },
    }
}

/// The rule of the exchange. While bytes of the query are unsent, a write
/// that took some of them leaves the rest to send, a write that took none
/// ends the exchange, and so does a failure. After that, bytes that were read
/// join the line, and the exchange ends with the reply at the first line
/// feed, at the end of the stream, at a timeout or at a failure. An
/// interrupted call is made again, and an event that answers no request of
/// the exchange changes nothing.
pub open spec fn exchange_step(exchange: ExchangeView, event: PortEventView) -> ExchangeStepView {
    if exchange.unsent.len() > 0 {
        write_step(exchange, event)
    } else {
        read_step(exchange, event)
    }
}

impl View for Exchange {
    type V = ExchangeView;

    closed spec fn view(&self) -> ExchangeView {
        ExchangeView { unsent: self.unsent@, line: self.line@ }
    }
}

impl Exchange {
    #[verifier::type_invariant]
    spec fn gathers_one_line(&self) -> bool {
        self@.well_formed()
    }

    /// Starts the exchange of one query: all of its frame is still to send.
    pub fn new(message: &str) -> (exchange: Exchange)
        ensures
            exchange@ == (ExchangeView { unsent: framed(message@), line: Seq::empty() }),
            exchange@.well_formed(),
    {
        Exchange { unsent: frame_query(message), line: Vec::new() }
    }

    /// What the exchange asks of the port now.
    pub fn request(&self) -> (request: PortRequest)
        ensures
            request@ == self@.request(),
            self@.well_formed(),
    {
        proof {
            use_type_invariant(self);
        }
        if self.unsent.len() > 0 {
            assert(self.unsent@.subrange(0, self.unsent.len() as int) == self.unsent@);
            PortRequest::Write { bytes: copy_from(&self.unsent, 0) }
        } else {
            PortRequest::Read
        }
    }
}

/// Advances the exchange with an open port by one event.
pub fn send_and_receive_serial_message(exchange: Exchange, event: PortEvent) -> (step:
    ExchangeStep)
    ensures
        step@ == exchange_step(exchange@, event@),
        step matches ExchangeStep::Pending { exchange: next } ==> next@.well_formed(),
{
    proof {
        use_type_invariant(&exchange);
    }
    let Exchange { unsent, line } = exchange;
    if unsent.len() > 0 {
        match event {
            PortEvent::Wrote { count } => {
                if count == 0 {
                    ExchangeStep::Done {
                        reply: Err(
                            ProbeError::Io {
                                kind: IoErrorKind::WriteZero,
                                message: "failed to write whole buffer".to_owned(),
                            },
                        ),
                    }
                } else if count >= unsent.len() {
                    ExchangeStep::Pending { exchange: Exchange { unsent: Vec::new(), line } }
                } else {
                    let rest = copy_from(&unsent, count);
                    ExchangeStep::Pending { exchange: Exchange { unsent: rest, line } }
                }
            },
            PortEvent::Failed { kind, message } => {
                match kind {
                    IoErrorKind::Interrupted => ExchangeStep::Pending {
                        exchange: Exchange { unsent, line },
                    },
                    _ => ExchangeStep::Done { reply: Err(ProbeError::Io { kind, message }) },
                }
            },
            _ => ExchangeStep::Pending { exchange: Exchange { unsent, line } },
        }
    } else {
        match event {
            PortEvent::Received { bytes } => {
                let mut line = line;
                if bytes.len() == 0 {
                    ExchangeStep::Done { reply: decode_reply(line) }
                } else {
                    match find_line_feed(&bytes) {
                        Some(at) => {
                            let mut bytes = bytes;
                            bytes.truncate(at + 1);
                            line.append(&mut bytes);
                            ExchangeStep::Done { reply: decode_reply(line) }
                        },
                        None => {
                            let mut bytes = bytes;
                            line.append(&mut bytes);
                            ExchangeStep::Pending { exchange: Exchange { unsent, line } }
                        },
                    }
                }
            },
            PortEvent::Failed { kind, message } => {
                match kind {
                    IoErrorKind::Interrupted => ExchangeStep::Pending {
                        exchange: Exchange { unsent, line },
                    },
                    IoErrorKind::TimedOut => ExchangeStep::Done { reply: Err(ProbeError::Timeout) },
                    _ => {
                        let mut text = "Error during read operation: ".to_owned();
                        text.append(message.as_str());
                        ExchangeStep::Done { reply: Err(ProbeError::Io { kind, message: text }) }
                    },
                }
            },
            _ => ExchangeStep::Pending { exchange: Exchange { unsent, line } },
        }
    }
}

/// Where an exchange stands after a row of events, each handed to it in turn
/// for as long as it is not over.
pub open spec fn exchange_run(exchange: ExchangeView, events: Seq<PortEventView>) -> ExchangeStepView
    decreases events.len(),
{
    if events.len() == 0 {
        ExchangeStepView::Pending { exchange }
    } else {
        match exchange_step(exchange, events.first()) {
            ExchangeStepView::Pending { exchange: next } => exchange_run(next, events.drop_first()),
            done => done,
        }
    }
}

/// The events of reads that returned these chunks of bytes, in order.
pub open spec fn reads(chunks: Seq<Seq<u8>>) -> Seq<PortEventView> {
    chunks.map_values(|bytes: Seq<u8>| PortEventView::Received { bytes })
}

/// Reads that return bytes without a line feed: none of them is empty, and
/// none holds a line feed.
pub open spec fn unfinished(chunks: Seq<Seq<u8>>) -> bool {
    forall|i: int|
        0 <= i < chunks.len() ==> (#[trigger] chunks[i]).len() > 0 && !chunks[i].contains(
            LINE_FEED,
        )
}

/// A run over two rows of events is the run over the second row from where
/// the first one ends, unless the first one ends the exchange.
proof fn lemma_run_in_two(
    exchange: ExchangeView,
    before: Seq<PortEventView>,
    after: Seq<PortEventView>,
)
    ensures
        exchange_run(exchange, before + after) == match exchange_run(exchange, before) {
            ExchangeStepView::Pending { exchange: next } => exchange_run(next, after),
            done => done,
        },
    decreases before.len(),
{
    if before.len() == 0 {
        assert(before + after == after);
    } else {
        let events = before + after;
        assert(events.first() == before.first());
        assert(events.drop_first() == before.drop_first() + after);
        match exchange_step(exchange, before.first()) {
            ExchangeStepView::Pending { exchange: next } => {
                lemma_run_in_two(next, before.drop_first(), after);
            },
            _ => {},
        }
    }
}

/// Reads without a line feed join the line, and the exchange goes on.
proof fn lemma_gathering(exchange: ExchangeView, chunks: Seq<Seq<u8>>)
    requires
        exchange.unsent.len() == 0,
        unfinished(chunks),
    ensures
        exchange_run(exchange, reads(chunks)) == (ExchangeStepView::Pending {
            exchange: ExchangeView {
                unsent: exchange.unsent,
                line: exchange.line + chunks.flatten(),
            },
        }),
        !chunks.flatten().contains(LINE_FEED),
    decreases chunks.len(),
{
    if chunks.len() == 0 {
        assert(exchange.line + chunks.flatten() == exchange.line);
    } else {
        let first = chunks.first();
        let rest = chunks.drop_first();
        let next = ExchangeView { unsent: exchange.unsent, line: exchange.line + first };
        assert(first == chunks[0]);
        assert(first_line_feed(first) is None);
        assert(reads(chunks).first() == (PortEventView::Received { bytes: first }));
        assert(reads(chunks).drop_first() == reads(rest));
        assert forall|i: int| 0 <= i < rest.len() implies (#[trigger] rest[i]).len() > 0
            && !rest[i].contains(LINE_FEED) by {
            assert(rest[i] == chunks[i + 1]);
        }
        lemma_gathering(next, rest);
        assert(next.line + rest.flatten() == exchange.line + chunks.flatten());
        let all = chunks.flatten();
        assert(all == first + rest.flatten());
        if all.contains(LINE_FEED) {
            let j = choose|j: int| 0 <= j < all.len() && all[j] == LINE_FEED;
            if j < first.len() {
                assert(first[j] == LINE_FEED);
            } else {
                assert(rest.flatten()[j - first.len()] == LINE_FEED);
            }
        }
    }
}

/// However the reads split the bytes of the device, the reply is what stands
/// before the first line feed of them all. Bytes behind that line feed, and
/// whatever the port does later, have no part in it.
pub proof fn law_reply_is_first_line(
    exchange: ExchangeView,
    chunks: Seq<Seq<u8>>,
    last: Seq<u8>,
    later: Seq<PortEventView>,
)
    requires
        exchange.unsent.len() == 0,
        exchange.well_formed(),
        unfinished(chunks),
        last.contains(LINE_FEED),
    ensures
        first_line_feed(exchange.line + chunks.flatten() + last) matches Some(end)
            && exchange_run(
            exchange,
            reads(chunks).push(PortEventView::Received { bytes: last }) + later,
        ) == (ExchangeStepView::Done {
            reply: reply_of((exchange.line + chunks.flatten() + last).take(end + 1)),
        }),
{
    let gathered = exchange.line + chunks.flatten();
    let stream = gathered + last;
    let next = ExchangeView { unsent: exchange.unsent, line: gathered };
    let event = PortEventView::Received { bytes: last };
    lemma_gathering(exchange, chunks);
    lemma_run_in_two(exchange, reads(chunks), seq![event] + later);
    assert(reads(chunks).push(event) + later == reads(chunks) + (seq![event] + later));
    assert((seq![event] + later).first() == event);
    let bound = choose|j: int| 0 <= j < last.len() && last[j] == LINE_FEED;
    let at = lemma_least_line_feed(last, bound);
    lemma_first_line_feed_unique(last, at);
    assert(first_line_feed_at(stream, gathered.len() + at)) by {
        assert(stream[gathered.len() + at] == last[at]);
        assert forall|j: int| 0 <= j < gathered.len() + at implies stream[j] != LINE_FEED by {
            if j < exchange.line.len() {
                assert(stream[j] == exchange.line[j]);
            } else if j < gathered.len() {
                assert(stream[j] == chunks.flatten()[j - exchange.line.len()]);
            } else {
                assert(stream[j] == last[j - gathered.len()]);
            }
        }
    }
    lemma_first_line_feed_unique(stream, gathered.len() + at);
    assert(stream.take(gathered.len() + at + 1) == gathered + last.subrange(0, at + 1));
}

/// Where the stream ends before a line feed came, the reply is made of all
/// that came; where nothing came at all, no device is there.
pub proof fn law_reply_at_end_of_stream(exchange: ExchangeView, chunks: Seq<Seq<u8>>)
    requires
        exchange.unsent.len() == 0,
        unfinished(chunks),
    ensures
        exchange_run(exchange, reads(chunks).push(PortEventView::Received { bytes: Seq::empty() }))
            == (ExchangeStepView::Done { reply: reply_of(exchange.line + chunks.flatten()) }),
        exchange.line.len() == 0 && chunks.len() == 0 ==> reply_of(
            exchange.line + chunks.flatten(),
        ) == Err::<Seq<char>, ProbeErrorView>(ProbeErrorView::NoDevice),
{
    let event = PortEventView::Received { bytes: Seq::empty() };
    lemma_gathering(exchange, chunks);
    lemma_run_in_two(exchange, reads(chunks), seq![event]);
    assert(reads(chunks).push(event) == reads(chunks) + seq![event]);
    assert(seq![event].first() == event);
}

/// Where a read times out before a line feed came, the exchange ends with a
/// timeout, whether a part of the line was read or none.
pub proof fn law_timeout_without_line_feed(
    exchange: ExchangeView,
    chunks: Seq<Seq<u8>>,
    message: Seq<char>,
)
    requires
        exchange.unsent.len() == 0,
        unfinished(chunks),
    ensures
        exchange_run(
            exchange,
            reads(chunks).push(PortEventView::Failed { kind: IoErrorKind::TimedOut, message }),
        ) == (ExchangeStepView::Done { reply: Err(ProbeErrorView::Timeout) }),
{
    let event = PortEventView::Failed { kind: IoErrorKind::TimedOut, message };
    lemma_gathering(exchange, chunks);
    lemma_run_in_two(exchange, reads(chunks), seq![event]);
    assert(reads(chunks).push(event) == reads(chunks) + seq![event]);
    assert(seq![event].first() == event);
}

/// The query goes out in full before the first read. A write that took some
/// bytes leaves exactly the others to send: none is lost and none is sent
/// twice. Only when none is left does the exchange ask for a read.
pub proof fn law_query_is_written_in_full(exchange: ExchangeView, count: nat)
    requires
        exchange.unsent.len() > 0,
        count > 0,
    ensures
        exchange.request() == (PortRequestView::Write { bytes: exchange.unsent }),
        exchange_step(exchange, PortEventView::Wrote { count }) matches ExchangeStepView::Pending {
            exchange: next,
        } && {
            let taken = if count < exchange.unsent.len() {
                count as int
            } else {
                exchange.unsent.len() as int
            };
            &&& exchange.unsent.take(taken) + next.unsent == exchange.unsent
            &&& next.line == exchange.line
            &&& next.request() is Read <==> taken == exchange.unsent.len()
        },
{
}

} // verus!
