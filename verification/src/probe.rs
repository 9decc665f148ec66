//! The probe of one port: open it, exchange one query for one reply, and
//! judge the reply.

use crate::exchange::{
    exchange_run, exchange_step, send_and_receive_serial_message, Exchange, ExchangeStep,
    ExchangeStepView, ExchangeView, PortEvent, PortEventView, PortRequest, PortRequestView,
};
use crate::protocol::{
    description, framed, is_positive, is_positive_reply, reply_view, ProbeError, ProbeErrorView,
};
use vstd::prelude::*;
use vstd::string::*;

verus! {

/// The speed of the line to the device, in bits per second.
pub const BAUD_RATE: u32 = 115200;

/// The read timeout of a probe, in milliseconds, where the caller has no
/// reason for another.
pub const DEFAULT_TIMEOUT_MS: u64 = 1000;

/// How a probe ended.
#[derive(Debug, PartialEq, Eq)]
pub enum ProbeOutcome {
    /// The device replied, and the reply is positive.
    Matched { reply: String },
    /// The device replied, and the reply is negative.
    NoMatch { reply: String },
    /// No reply came.
    Failed { error: ProbeError },
}

/// The mathematical value of a `ProbeOutcome`.
pub enum ProbeOutcomeView {
    Matched { reply: Seq<char> },
    NoMatch { reply: Seq<char> },
    Failed { error: ProbeErrorView },
}

impl View for ProbeOutcome {
    type V = ProbeOutcomeView;

    open spec fn view(&self) -> ProbeOutcomeView {
        match self {
            ProbeOutcome::Matched { reply } => ProbeOutcomeView::Matched { reply: reply@ },
            ProbeOutcome::NoMatch { reply } => ProbeOutcomeView::NoMatch { reply: reply@ },
            ProbeOutcome::Failed { error } => ProbeOutcomeView::Failed { error: error@ },
        }
    }
}

/// The outcome that a reply, or the error in its place, stands for.
pub open spec fn judged(reply: Result<Seq<char>, ProbeErrorView>) -> ProbeOutcomeView {
    match reply {
        Ok(text) => if is_positive(text) {
            ProbeOutcomeView::Matched { reply: text }
        } else {
            ProbeOutcomeView::NoMatch { reply: text }
        },
        Err(error) => ProbeOutcomeView::Failed { error },
    }
}

/// Judges what an exchange ended with.
pub fn judge(reply: Result<String, ProbeError>) -> (outcome: ProbeOutcome)
    ensures
        outcome@ == judged(reply_view(reply)),
{
    match reply {
        Ok(text) => {
            if is_positive_reply(text.as_str()) {
                ProbeOutcome::Matched { reply: text }
            } else {
                ProbeOutcome::NoMatch { reply: text }
            }
        },
        Err(error) => ProbeOutcome::Failed { error },
    }
}

/// What goes in front of an error's description in a response text.
pub open spec fn error_prefix() -> Seq<char> {
    "Error: "@
}

/// The text that stands for an outcome where one string has to hold it: the
/// reply, or the description of the error behind the word `Error`.
pub open spec fn response_text(outcome: ProbeOutcomeView) -> Seq<char> {
    match outcome {
        ProbeOutcomeView::Matched { reply } => reply,
        ProbeOutcomeView::NoMatch { reply } => reply,
        ProbeOutcomeView::Failed { error } => error_prefix() + description(error),
    }
}

impl ProbeOutcome {
    /// The outcome as one string.
    pub fn response(&self) -> (text: String)
        ensures
            text@ == response_text(self@),
    {
        match self {
            ProbeOutcome::Matched { reply } => reply.clone(),
            ProbeOutcome::NoMatch { reply } => reply.clone(),
            ProbeOutcome::Failed { error } => {
                let mut text = "Error: ".to_owned();
                text.append(error.describe().as_str());
                text
            },
        }
    }
}

/// The detection policy reads a response text as it reads a reply: the text
/// of an outcome that was judged is positive exactly when the outcome is a
/// match, because the text of a failure begins with the word `Error`.
pub proof fn law_response_text_positive_iff_matched(reply: Result<Seq<char>, ProbeErrorView>)
    ensures
        is_positive(response_text(judged(reply))) <==> judged(reply) is Matched,
{
    if let Err(error) = reply {
        let text = error_prefix() + description(error);
        reveal_strlit("Error: ");
        reveal_strlit("Error");
        assert(text.subrange(0, 5) == "Error"@);
        assert(crate::text::occurs_at(text, "Error"@, 0));
    }
}

/// The result of one probe attempt.
#[derive(Debug, PartialEq, Eq)]
pub struct ProbeResult {
    pub port_name: String,
    pub outcome: ProbeOutcome,
}

/// The mathematical value of a `ProbeResult`.
pub struct ProbeResultView {
    pub port_name: Seq<char>,
    pub outcome: ProbeOutcomeView,
}

impl View for ProbeResult {
    type V = ProbeResultView;

    open spec fn view(&self) -> ProbeResultView {
        ProbeResultView { port_name: self.port_name@, outcome: self.outcome@ }
    }
}

/// The probe of one port, as a machine that a driver steps.
#[derive(Debug)]
pub struct Probe {
    port_name: String,
    timeout_ms: u64,
    opened: bool,
    exchange: Exchange,
}

/// The mathematical value of a `Probe`.
pub struct ProbeView {
    pub port_name: Seq<char>,
    pub timeout_ms: u64,
    /// The port is open.
    pub opened: bool,
    pub exchange: ExchangeView,
}

impl ProbeView {
    /// What the probe waits for: the port to be open, then what its exchange
    /// asks.
    pub open spec fn request(self) -> PortRequestView {
        if !self.opened {
            PortRequestView::Open {
                port_name: self.port_name,
                baud_rate: BAUD_RATE,
                timeout_ms: self.timeout_ms,
            }
        } else {
            self.exchange.request()
        }
    }
}

/// How a probe goes on after an event.
#[derive(Debug)]
pub enum ProbeStep {
    /// The probe is not over: carry out its request.
    Pending { probe: Probe },
    /// The probe is over, and the port can be closed.
    Done { result: ProbeResult },
}

/// The mathematical value of a `ProbeStep`.
pub enum ProbeStepView {
    Pending { probe: ProbeView },
    Done { result: ProbeResultView },
}

impl View for ProbeStep {
    type V = ProbeStepView;

    open spec fn view(&self) -> ProbeStepView {
        match self {
            ProbeStep::Pending { probe } => ProbeStepView::Pending { probe: probe@ },
            ProbeStep::Done { result } => ProbeStepView::Done { result: result@ },
        }
    }
}

/// The rule of the probe. Until the port is open, only the answer to the
/// request to open it counts: a port that cannot be opened ends the probe.
/// After that the exchange rules, and the probe ends when the exchange does,
/// with the reply judged.
pub open spec fn probe_step(probe: ProbeView, event: PortEventView) -> ProbeStepView {
    if !probe.opened {
        match event {
            PortEventView::Opened => ProbeStepView::Pending {
                probe: ProbeView { opened: true, ..probe },
            },
            PortEventView::OpenFailed { message } => ProbeStepView::Done {
                result: ProbeResultView {
                    port_name: probe.port_name,
                    outcome: ProbeOutcomeView::Failed { error: ProbeErrorView::Open { message } },
                },
            },
            _ => ProbeStepView::Pending { probe },
        }
    } else {
        match exchange_step(probe.exchange, event) {
            ExchangeStepView::Pending { exchange } => ProbeStepView::Pending {
                probe: ProbeView { exchange, ..probe },
            },
            ExchangeStepView::Done { reply } => ProbeStepView::Done {
                result: ProbeResultView { port_name: probe.port_name, outcome: judged(reply) },
            },
        }
    }
}

impl View for Probe {
    type V = ProbeView;

    closed spec fn view(&self) -> ProbeView {
        ProbeView {
            port_name: self.port_name@,
            timeout_ms: self.timeout_ms,
            opened: self.opened,
            exchange: self.exchange@,
        }
    }
}

impl Probe {
    /// Starts the probe of the port `port_name` with the query `message`.
    pub fn new(port_name: &str, message: &str, timeout_ms: u64) -> (probe: Probe)
        ensures
            probe@ == (ProbeView {
                port_name: port_name@,
                timeout_ms,
                opened: false,
                exchange: ExchangeView { unsent: framed(message@), line: Seq::empty() },
            }),
    {
        Probe {
            port_name: port_name.to_owned(),
            timeout_ms,
            opened: false,
            exchange: Exchange::new(message),
        }
    }

    /// What the probe asks of the port now.
    pub fn request(&self) -> (request: PortRequest)
        ensures
            request@ == self@.request(),
    {
        if !self.opened {
            PortRequest::Open {
                port_name: self.port_name.clone(),
                baud_rate: BAUD_RATE,
                timeout_ms: self.timeout_ms,
            }
        } else {
            self.exchange.request()
        }
    }
}

/// Advances the probe of a port by one event.
pub fn send_serial_command(probe: Probe, event: PortEvent) -> (step: ProbeStep)
    ensures
        step@ == probe_step(probe@, event@),
{
    let Probe { port_name, timeout_ms, opened, exchange } = probe;
    if !opened {
        match event {
            PortEvent::Opened => ProbeStep::Pending {
                probe: Probe { port_name, timeout_ms, opened: true, exchange },
            },
            PortEvent::OpenFailed { message } => ProbeStep::Done {
                result: ProbeResult {
                    port_name,
                    outcome: ProbeOutcome::Failed { error: ProbeError::Open { message } },
                },
            },
            _ => ProbeStep::Pending { probe: Probe { port_name, timeout_ms, opened, exchange } },
        }
    } else {
        match send_and_receive_serial_message(exchange, event) {
            ExchangeStep::Pending { exchange } => ProbeStep::Pending {
                probe: Probe { port_name, timeout_ms, opened, exchange },
            },
            ExchangeStep::Done { reply } => ProbeStep::Done {
                result: ProbeResult { port_name, outcome: judge(reply) },
            },
        }
    }
}

/// Where a probe stands after a row of events, each handed to it in turn for
/// as long as it is not over.
pub open spec fn probe_run(probe: ProbeView, events: Seq<PortEventView>) -> ProbeStepView
    decreases events.len(),
{
    if events.len() == 0 {
        ProbeStepView::Pending { probe }
    } else {
        match probe_step(probe, events.first()) {
            ProbeStepView::Pending { probe: next } => probe_run(next, events.drop_first()),
            done => done,
        }
    }
}

/// Once the port is open, the probe is its exchange: it goes on while the
/// exchange does, and when the exchange ends with a reply or an error, the
/// probe ends with that reply or error judged, under the name of its port.
pub proof fn law_probe_follows_its_exchange(probe: ProbeView, events: Seq<PortEventView>)
    requires
        probe.opened,
    ensures
        probe_run(probe, events) == match exchange_run(probe.exchange, events) {
            ExchangeStepView::Pending { exchange } => ProbeStepView::Pending {
                probe: ProbeView { exchange, ..probe },
            },
            ExchangeStepView::Done { reply } => ProbeStepView::Done {
                result: ProbeResultView { port_name: probe.port_name, outcome: judged(reply) },
            },
        },
    decreases events.len(),
{
    if events.len() > 0 {
        match exchange_step(probe.exchange, events.first()) {
            ExchangeStepView::Pending { exchange } => {
                law_probe_follows_its_exchange(
                    ProbeView { exchange, ..probe },
                    events.drop_first(),
                );
            },
            _ => {},
        }
    }
}

/// A probe begins by opening its port, at the fixed speed and with the
/// timeout that it was given. A port that opens starts the exchange with the
/// whole query still to send; one that does not open ends the probe at once.
pub proof fn law_probe_begins_with_open(probe: ProbeView, message: Seq<char>)
    requires
        !probe.opened,
    ensures
        probe.request() == (PortRequestView::Open {
            port_name: probe.port_name,
            baud_rate: BAUD_RATE,
            timeout_ms: probe.timeout_ms,
        }),
        probe_step(probe, PortEventView::Opened) == (ProbeStepView::Pending {
            probe: ProbeView { opened: true, ..probe },
        }),
        probe_step(probe, PortEventView::OpenFailed { message }) == (ProbeStepView::Done {
            result: ProbeResultView {
                port_name: probe.port_name,
                outcome: ProbeOutcomeView::Failed { error: ProbeErrorView::Open { message } },
            },
        }),
{
}

} // verus!
