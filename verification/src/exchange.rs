//! One HID++ request: discard queued reports, write the short request, then
//! wait for the reply that matches it. The exchange decides; whoever owns the
//! device performs the reads and writes it asks for and reports back what
//! came and when. Times are nanoseconds on one monotonic clock.

use vstd::prelude::*;

use crate::hidpp::{
    function_byte, HidppError, match_report, short_report, spec_function_byte, spec_match_report,
    spec_short_report, ReportMatch, SHORT_REPORT_LEN,
};

verus! {

pub const NANOS_PER_MILLI: u64 = 1_000_000;

/// How long queued reports are discarded before a request is written.
pub const FLUSH_WINDOW: u64 = 200_000_000;

/// The longest one request waits for its reply.
pub const RESPONSE_TIMEOUT: u64 = 1_500_000_000;

/// Upper bound for probing every interface and device index.
pub const DISCOVERY_BUDGET: u64 = 6_000_000_000;

/// What a single HID++ request produced.
#[derive(Debug)]
pub enum Reply {
    /// The matching report, as read.
    Response(Vec<u8>),
    /// The device index exists but rejected the request.
    DeviceError,
    /// The receiver has no connected device at this index.
    Offline,
    /// Nothing answered within the timeout.
    Silence,
}

pub enum ReplyView {
    Response(Seq<u8>),
    DeviceError,
    Offline,
    Silence,
}

impl View for Reply {
    type V = ReplyView;

    open spec fn view(&self) -> ReplyView {
        match self {
            Reply::Response(report) => ReplyView::Response(report@),
            Reply::DeviceError => ReplyView::DeviceError,
            Reply::Offline => ReplyView::Offline,
            Reply::Silence => ReplyView::Silence,
        }
    }
}

/// What the exchange asks of the device next, or how it ended.
#[derive(Debug)]
pub enum ExchangeStep<E> {
    /// Read one report, waiting at most this many milliseconds.
    Read { timeout_ms: i32 },
    /// Write this report.
    Write { report: Vec<u8> },
    /// The request is answered.
    Finished(Reply),
    /// The exchange failed: a read or write failed with the device's error,
    /// or the device accepted fewer bytes than the request holds.
    Failed(HidppError<E>),
}

pub enum StepView<E> {
    Read { timeout_ms: i32 },
    Write { report: Seq<u8> },
    Finished(ReplyView),
    Failed(HidppError<E>),
}

impl<E> View for ExchangeStep<E> {
    type V = StepView<E>;

    open spec fn view(&self) -> StepView<E> {
        match self {
            ExchangeStep::Read { timeout_ms } => StepView::Read { timeout_ms: *timeout_ms },
            ExchangeStep::Write { report } => StepView::Write { report: report@ },
            ExchangeStep::Finished(reply) => StepView::Finished(reply@),
            ExchangeStep::Failed(error) => StepView::Failed(*error),
        }
    }
}

/// How an exchange ended, with the reply taken by its view.
pub open spec fn spec_outcome_view<E>(outcome: Result<Reply, HidppError<E>>) -> Result<ReplyView, HidppError<E>> {
    match outcome {
        Ok(reply) => Ok(reply@),
        Err(error) => Err(error),
    }
}

#[derive(Debug, Clone, Copy, PartialEq, Eq, Structural)]
pub enum ExchangePhase {
    /// Not started.
    Ready,
    /// Discarding queued reports until the deadline or an empty read.
    Flushing { deadline: u64 },
    /// The request is to be written.
    Writing,
    /// Waiting for the matching reply until the deadline.
    Awaiting { deadline: u64 },
    /// The exchange has ended.
    Done,
}

/// The state of one request.
#[derive(Debug)]
pub struct RequestExchange {
    pub device_index: u8,
    pub feature_index: u8,
    pub function_byte: u8,
    pub payload: [u8; 3],
    /// How long to wait for the reply once the request is written.
    pub timeout: u64,
    pub phase: ExchangePhase,
}

/// Whole milliseconds in `remaining`, capped at `i32::MAX`.
pub open spec fn spec_wait_millis(remaining: u64) -> i32 {
    if remaining / NANOS_PER_MILLI > i32::MAX as u64 {
        i32::MAX
    } else {
        (remaining / NANOS_PER_MILLI) as i32
    }
}

/// The time left until `deadline`, capped at the per-request timeout.
pub open spec fn spec_request_timeout(now: u64, deadline: u64) -> u64 {
    let remaining = if now < deadline { (deadline - now) as u64 } else { 0u64 };
    if remaining < RESPONSE_TIMEOUT { remaining } else { RESPONSE_TIMEOUT }
}

pub fn wait_millis(remaining: u64) -> (r: i32)
    ensures
        r == spec_wait_millis(remaining),
        r >= 0,
        r as int * NANOS_PER_MILLI <= remaining,
{
    let millis = remaining / NANOS_PER_MILLI;
    if millis > i32::MAX as u64 {
        i32::MAX
    } else {
        millis as i32
    }
}

/// Remaining time for one request, capped at the per-request timeout.
pub fn request_timeout(now: u64, deadline: u64) -> (r: u64)
    ensures
        r == spec_request_timeout(now, deadline),
        r <= RESPONSE_TIMEOUT,
        now + r <= deadline || r == 0,
{
    let remaining = if now < deadline { deadline - now } else { 0 };
    if remaining < RESPONSE_TIMEOUT { remaining } else { RESPONSE_TIMEOUT }
}

impl RequestExchange {
    /// The request report this exchange writes.
    pub open spec fn request_report(&self) -> Seq<u8> {
        spec_short_report(self.device_index, self.feature_index, self.function_byte, self.payload)
    }

    /// The phase and step that follow a read of `report` finished at `now`.
    pub open spec fn after_read<E>(&self, report: Seq<u8>, now: u64) -> (ExchangePhase, StepView<E>) {
        match self.phase {
            ExchangePhase::Flushing { deadline } => {
                if report.len() == 0 || now >= deadline {
                    (ExchangePhase::Writing, StepView::Write { report: self.request_report() })
                } else {
                    (self.phase, StepView::Read { timeout_ms: 0 })
                }
            },
            ExchangePhase::Awaiting { deadline } => {
                let matched = spec_match_report(report, self.device_index, self.feature_index, self.function_byte);
                if report.len() > 0 && matched == ReportMatch::Reply {
                    (ExchangePhase::Done, StepView::Finished(ReplyView::Response(report)))
                } else if report.len() > 0 && matched == ReportMatch::Offline {
                    (ExchangePhase::Done, StepView::Finished(ReplyView::Offline))
                } else if report.len() > 0 && matched == ReportMatch::DeviceError {
                    (ExchangePhase::Done, StepView::Finished(ReplyView::DeviceError))
                } else if now >= deadline {
                    (ExchangePhase::Done, StepView::Finished(ReplyView::Silence))
                } else {
                    (self.phase, StepView::Read { timeout_ms: spec_wait_millis((deadline - now) as u64) })
                }
            },
            _ => (self.phase, StepView::Read { timeout_ms: 0 }),
        }
    }

    /// The phase and step that follow a write of `written` bytes finished at
    /// `now`.
    pub open spec fn after_write<E>(&self, written: usize, now: u64) -> (ExchangePhase, StepView<E>) {
        if written != SHORT_REPORT_LEN {
            (
                ExchangePhase::Done,
                StepView::Failed(HidppError::ShortWrite { expected: SHORT_REPORT_LEN, actual: written }),
            )
        } else {
            (
                ExchangePhase::Awaiting { deadline: (now + self.timeout) as u64 },
                StepView::Read { timeout_ms: spec_wait_millis(self.timeout) },
            )
        }
    }

    /// Whether the exchange is waiting for the outcome of a read.
    pub open spec fn awaits_read(&self) -> bool {
        self.phase is Flushing || self.phase is Awaiting
    }

    pub open spec fn same_request(&self, other: &Self) -> bool {
        &&& self.device_index == other.device_index
        &&& self.feature_index == other.feature_index
        &&& self.function_byte == other.function_byte
        &&& self.payload == other.payload
        &&& self.timeout == other.timeout
    }

    /// A request for `function` of `feature_index` on `device_index`, from
    /// the software `sw_id`, that waits `timeout` for its reply.
    pub fn new(device_index: u8, feature_index: u8, function: u8, sw_id: u8, payload: [u8; 3], timeout: u64) -> (r: Self)
        ensures
            r.device_index == device_index,
            r.feature_index == feature_index,
            r.function_byte == spec_function_byte(function, sw_id),
            r.payload == payload,
            r.timeout == timeout,
            r.phase == ExchangePhase::Ready,
    {
        RequestExchange {
            device_index,
            feature_index,
            function_byte: function_byte(function, sw_id),
            payload,
            timeout,
            phase: ExchangePhase::Ready,
        }
    }

    /// Begin at `now`: queued reports are read without waiting until the
    /// flush window closes.
    pub fn start<E>(&mut self, now: u64) -> (step: ExchangeStep<E>)
        requires
            old(self).phase == ExchangePhase::Ready,
            now <= u64::MAX - FLUSH_WINDOW,
        ensures
            final(self).same_request(old(self)),
            final(self).phase == (ExchangePhase::Flushing { deadline: (now + FLUSH_WINDOW) as u64 }),
            step@ == (StepView::<E>::Read { timeout_ms: 0 }),
    {
        self.phase = ExchangePhase::Flushing { deadline: now + FLUSH_WINDOW };
        ExchangeStep::Read { timeout_ms: 0 }
    }

    pub fn awaits_read_now(&self) -> (r: bool)
        ensures
            r == self.awaits_read(),
    {
        match self.phase {
            ExchangePhase::Flushing { .. } | ExchangePhase::Awaiting { .. } => true,
            _ => false,
        }
    }

    /// Whether the exchange is waiting for the outcome of a write.
    pub fn awaits_write(&self) -> (r: bool)
        ensures
            r == (self.phase == ExchangePhase::Writing),
    {
        match self.phase {
            ExchangePhase::Writing => true,
            _ => false,
        }
    }

    /// A read finished at `now` and returned `report`, empty when nothing
    /// arrived. While flushing, an empty read or the end of the window moves
    /// on to the write. While awaiting the reply, a matching report or error
    /// report ends the exchange, other reports are skipped, and the wait
    /// ends with silence at the deadline; until then the next read waits for
    /// what is left of it.
    pub fn on_read<E>(&mut self, report: &[u8], now: u64) -> (step: ExchangeStep<E>)
        requires
            old(self).awaits_read(),
        ensures
            final(self).same_request(old(self)),
            (final(self).phase, step@) == old(self).after_read::<E>(report@, now),
    {
        match self.phase {
            ExchangePhase::Flushing { deadline } => {
                if report.len() == 0 || now >= deadline {
                    self.phase = ExchangePhase::Writing;
                    let request = short_report(self.device_index, self.feature_index, self.function_byte, self.payload);
                    ExchangeStep::Write { report: request }
                } else {
                    ExchangeStep::Read { timeout_ms: 0 }
                }
            },
            ExchangePhase::Awaiting { deadline } => {
                if report.len() > 0 {
                    match match_report(report, self.device_index, self.feature_index, self.function_byte) {
                        ReportMatch::Reply => {
                            self.phase = ExchangePhase::Done;
                            return ExchangeStep::Finished(Reply::Response(copy_report(report)));
                        },
                        ReportMatch::Offline => {
                            self.phase = ExchangePhase::Done;
                            return ExchangeStep::Finished(Reply::Offline);
                        },
                        ReportMatch::DeviceError => {
                            self.phase = ExchangePhase::Done;
                            return ExchangeStep::Finished(Reply::DeviceError);
                        },
                        ReportMatch::Unrelated => {},
                    }
                }
                if now >= deadline {
                    self.phase = ExchangePhase::Done;
                    ExchangeStep::Finished(Reply::Silence)
                } else {
                    ExchangeStep::Read { timeout_ms: wait_millis(deadline - now) }
                }
            },
            _ => ExchangeStep::Read { timeout_ms: 0 },
        }
    }

    /// The pending read or write failed with the device's `error`: the
    /// exchange ends with that error and asks for no further I/O.
    pub fn on_failure<E>(&mut self, error: E) -> (step: ExchangeStep<E>)
        requires
            old(self).awaits_read() || old(self).phase == ExchangePhase::Writing,
        ensures
            final(self).same_request(old(self)),
            final(self).phase == ExchangePhase::Done,
            step@ == StepView::<E>::Failed(HidppError::Hid(error)),
    {
        self.phase = ExchangePhase::Done;
        ExchangeStep::Failed(HidppError::Hid(error))
    }

    /// The write of the request finished at `now` having taken `written`
    /// bytes: all of them start the wait for the reply, fewer end the
    /// exchange.
    pub fn on_write<E>(&mut self, written: usize, now: u64) -> (step: ExchangeStep<E>)
        requires
            old(self).phase == ExchangePhase::Writing,
            now <= u64::MAX - old(self).timeout,
        ensures
            final(self).same_request(old(self)),
            (final(self).phase, step@) == old(self).after_write::<E>(written, now),
    {
        if written != SHORT_REPORT_LEN {
            self.phase = ExchangePhase::Done;
            return ExchangeStep::Failed(HidppError::ShortWrite { expected: SHORT_REPORT_LEN, actual: written });
        }
        self.phase = ExchangePhase::Awaiting { deadline: now + self.timeout };
        ExchangeStep::Read { timeout_ms: wait_millis(self.timeout) }
    }
}


/// A reply handed back as a response is the report that was read, and it
/// matches the request: right header, device index, feature index and
/// function byte.
pub proof fn lemma_response_matches_request<E>(ex: RequestExchange, report: Seq<u8>, now: u64)
    requires
        ex.awaits_read(),
    ensures
        ex.after_read::<E>(report, now).1 matches StepView::Finished(ReplyView::Response(r)) ==> {
            &&& r == report
            &&& ex.phase is Awaiting
            &&& spec_match_report(r, ex.device_index, ex.feature_index, ex.function_byte) == ReportMatch::Reply
        },
{
}

/// Reads never wait while flushing, and a read while awaiting the reply
/// never waits past the reply deadline.
pub proof fn lemma_reads_stay_within_deadline<E>(ex: RequestExchange, report: Seq<u8>, now: u64)
    requires
        ex.awaits_read(),
    ensures
        ex.after_read::<E>(report, now).1 matches StepView::Read { timeout_ms } ==> {
            &&& timeout_ms >= 0
            &&& ex.phase is Flushing ==> timeout_ms == 0
            &&& ex.phase matches ExchangePhase::Awaiting { deadline } ==> now < deadline
                && timeout_ms as int * NANOS_PER_MILLI <= deadline - now
        },
{
}

/// Silence is reported only once the reply deadline has passed, and
/// reports that do not answer the request neither end the wait early nor
/// move its deadline.
pub proof fn lemma_unrelated_reports_keep_the_deadline<E>(ex: RequestExchange, report: Seq<u8>, now: u64, deadline: u64)
    requires
        ex.phase == (ExchangePhase::Awaiting { deadline }),
        report.len() == 0 || spec_match_report(report, ex.device_index, ex.feature_index, ex.function_byte)
            == ReportMatch::Unrelated,
    ensures
        now < deadline ==> ex.after_read::<E>(report, now).0 == ex.phase,
        now >= deadline ==> ex.after_read::<E>(report, now) == (ExchangePhase::Done, StepView::<E>::Finished(ReplyView::Silence)),
        (ex.after_read::<E>(report, now).1 == StepView::<E>::Finished(ReplyView::Silence)) ==> now >= deadline,
{
}

/// The request is written exactly once: only the end of the flush asks for
/// a write, it writes this exchange's request, and nothing after the write
/// asks for another.
pub proof fn lemma_request_written_once<E>(ex: RequestExchange, report: Seq<u8>, now: u64, written: usize)
    ensures
        ex.awaits_read() && ex.after_read::<E>(report, now).1 is Write ==> ex.phase is Flushing
            && ex.after_read::<E>(report, now) == (ExchangePhase::Writing, StepView::<E>::Write { report: ex.request_report() }),
        !(ex.after_write::<E>(written, now).1 is Write),
        ex.after_write::<E>(written, now).0 is Awaiting || ex.after_write::<E>(written, now).0 is Done,
        ex.request_report().len() == SHORT_REPORT_LEN,
{
}

/// A partial write ends the exchange with `ShortWrite`; a failed read or
/// write ends it with the device's error (see `on_failure`). An ended
/// exchange accepts no further read or write.
pub proof fn lemma_failures_end_the_exchange<E>(ex: RequestExchange, written: usize, now: u64)
    ensures
        written != SHORT_REPORT_LEN ==> ex.after_write::<E>(written, now) == (
            ExchangePhase::Done,
            StepView::<E>::Failed(HidppError::ShortWrite { expected: SHORT_REPORT_LEN, actual: written }),
        ),
        ex.phase == ExchangePhase::Done ==> !ex.awaits_read() && ex.phase != ExchangePhase::Writing,
{
}

fn copy_report(report: &[u8]) -> (r: Vec<u8>)
    ensures
        r@ == report@,
{
    let mut copy: Vec<u8> = Vec::new();
    let mut i: usize = 0;
    while i < report.len()
        invariant
            i <= report@.len(),
            copy@ == report@.take(i as int),
        decreases report@.len() - i,
    {
        copy.push(report[i]);
        i = i + 1;
        assert(copy@ =~= report@.take(i as int));
    }
    assert(report@.take(i as int) =~= report@);
    copy
}

} // verus!
