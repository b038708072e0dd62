use vstd::prelude::*;

use crate::frame::{le16, push_le16};
use crate::types::ControlCode;

verus! {

/// Status code of an echoed point that the outstation accepted.
pub const STATUS_SUCCESS: u8 = 0;

/// Control relay output block.
#[derive(Copy, Clone, Debug, PartialEq, Eq, Structural)]
pub struct Crob {
    pub code: ControlCode,
    pub count: u8,
    pub on_time: u32,
    pub off_time: u32,
}

/// Kind of command object carried by one header.
#[derive(Copy, Clone, Debug, PartialEq, Eq, Structural)]
pub enum ValueKind {
    Crob,
    AnalogI16,
    AnalogI32,
}

/// Value commanded at one point.
#[derive(Copy, Clone, Debug, PartialEq, Eq, Structural)]
pub enum CommandValue {
    Crob(Crob),
    AnalogI16(i16),
    AnalogI32(i32),
}

/// A value sent to the point at `index`.
#[derive(Copy, Clone, Debug, PartialEq, Eq, Structural)]
pub struct CommandPoint {
    pub index: u16,
    pub value: CommandValue,
}

/// A value echoed for the point at `index`, with the outstation's status.
#[derive(Copy, Clone, Debug, PartialEq, Eq, Structural)]
pub struct EchoPoint {
    pub index: u16,
    pub value: CommandValue,
    pub status: u8,
}

/// One object header of a command request: its object kind and points, in order.
#[derive(Clone, Debug)]
pub struct CommandHeader {
    pub kind: ValueKind,
    pub points: Vec<CommandPoint>,
}

/// One object header of a response, as echoed by the outstation.
#[derive(Clone, Debug)]
pub struct EchoHeader {
    pub kind: ValueKind,
    pub points: Vec<EchoPoint>,
}

/// Why an echoed response does not confirm the command.
#[derive(Copy, Clone, Debug, PartialEq, Eq, Structural)]
pub enum CommandResponseError {
    /// The point was echoed with a status other than success.
    BadStatus(u8),
    /// The response holds another number of headers than the request.
    HeaderCountMismatch,
    /// A header echoes another kind of object.
    HeaderTypeMismatch,
    /// A header echoes another number of points.
    ObjectCountMismatch,
    /// A point echoes another index or value.
    ObjectValueMismatch,
}

/// A failure reported by the task runner, outside the response itself.
#[derive(Copy, Clone, Debug, PartialEq, Eq, Structural)]
pub enum TaskError {
    ResponseTimeout,
    WriteError,
    NoConnection,
    Shutdown,
    BadResponse,
}

#[derive(Copy, Clone, Debug, PartialEq, Eq, Structural)]
pub enum CommandTaskError {
    Response(CommandResponseError),
    Task(TaskError),
}

/// What the runner is to do after a response was handled.
#[derive(Copy, Clone, Debug, PartialEq, Eq, Structural)]
pub enum TaskStatus {
    Complete,
    ExecuteNextStep,
}

/// Step of a command sequence.
#[derive(Copy, Clone, Debug, PartialEq, Eq, Structural)]
pub enum State {
    Select,
    Operate,
    DirectOperate,
}

/// Receives the single result of a command task.
pub trait CommandResultHandler {
    fn handle(&mut self, result: Result<(), CommandTaskError>);
}

/// The first fault of one echoed point against the point sent, if any.
pub open spec fn point_error(sent: CommandPoint, echo: EchoPoint) -> Option<CommandResponseError> {
    if sent.index != echo.index || sent.value != echo.value {
        Some(CommandResponseError::ObjectValueMismatch)
    } else if echo.status != STATUS_SUCCESS {
        Some(CommandResponseError::BadStatus(echo.status))
    } else {
        None
    }
}

/// The first fault among the points from position `i` on.
pub open spec fn points_error(sent: Seq<CommandPoint>, echo: Seq<EchoPoint>, i: int) -> Option<
    CommandResponseError,
>
    decreases sent.len() - i,
{
    if i < 0 || i >= sent.len() || i >= echo.len() {
        None
    } else {
        match point_error(sent[i], echo[i]) {
            Some(e) => Some(e),
            None => points_error(sent, echo, i + 1),
        }
    }
}

/// The first fault of one echoed header against the header sent, if any.
pub open spec fn header_error(sent: CommandHeader, echo: EchoHeader) -> Option<CommandResponseError> {
    if sent.kind != echo.kind {
        Some(CommandResponseError::HeaderTypeMismatch)
    } else if sent.points@.len() != echo.points@.len() {
        Some(CommandResponseError::ObjectCountMismatch)
    } else {
        points_error(sent.points@, echo.points@, 0)
    }
}

/// The first fault among the headers from position `i` on.
pub open spec fn headers_error(sent: Seq<CommandHeader>, echo: Seq<EchoHeader>, i: int) -> Option<
    CommandResponseError,
>
    decreases sent.len() - i,
{
    if i < 0 || i >= sent.len() || i >= echo.len() {
        None
    } else {
        match header_error(sent[i], echo[i]) {
            Some(e) => Some(e),
            None => headers_error(sent, echo, i + 1),
        }
    }
}

/// Whether a response confirms the request: as many headers, each echoing the
/// request's header exactly with success status; else the fault found first.
pub open spec fn compare_headers(sent: Seq<CommandHeader>, echo: Seq<EchoHeader>) -> Result<
    (),
    CommandResponseError,
> {
    if sent.len() != echo.len() {
        Err(CommandResponseError::HeaderCountMismatch)
    } else {
        match headers_error(sent, echo, 0) {
            Some(e) => Err(e),
            None => Ok(()),
        }
    }
}

/// The state, status and delivered result after a response arrives in `state`.
pub open spec fn handle_step(state: State, sent: Seq<CommandHeader>, echo: Seq<EchoHeader>) -> (
    State,
    TaskStatus,
    Option<Result<(), CommandTaskError>>,
) {
    match compare_headers(sent, echo) {
        Err(e) => (state, TaskStatus::Complete, Some(Err(CommandTaskError::Response(e)))),
        Ok(()) => match state {
            State::Select => (State::Operate, TaskStatus::ExecuteNextStep, None),
            _ => (state, TaskStatus::Complete, Some(Ok(()))),
        },
    }
}

fn compare_header(sent: &CommandHeader, echo: &EchoHeader) -> (r: Result<(), CommandResponseError>)
    ensures
        r == (match header_error(*sent, *echo) {
            Some(e) => Err(e),
            None => Ok(()),
        }),
{
    if sent.kind != echo.kind {
        return Err(CommandResponseError::HeaderTypeMismatch);
    }
    let n = sent.points.len();
    if n != echo.points.len() {
        return Err(CommandResponseError::ObjectCountMismatch);
    }
    let mut i: usize = 0;
    while i < n
        invariant
            sent.kind == echo.kind,
            n == sent.points@.len(),
            n == echo.points@.len(),
            i <= n,
            points_error(sent.points@, echo.points@, 0) == points_error(
                sent.points@,
                echo.points@,
                i as int,
            ),
        decreases n - i,
    {
        let s = sent.points[i];
        let e = echo.points[i];
        if s.index != e.index || s.value != e.value {
            assert(points_error(sent.points@, echo.points@, i as int) == point_error(s, e));
            return Err(CommandResponseError::ObjectValueMismatch);
        }
        if e.status != STATUS_SUCCESS {
            assert(points_error(sent.points@, echo.points@, i as int) == point_error(s, e));
            return Err(CommandResponseError::BadStatus(e.status));
        }
        i = i + 1;
    }
    Ok(())
}

/// Request fragment would not fit the space given, or a header holds more
/// points than its count field can carry.
#[derive(Copy, Clone, Debug, PartialEq, Eq, Structural)]
pub enum WriteError {
    InsufficientSpace,
    TooManyPoints,
}

/// Application function codes of the three request kinds.
pub const FC_SELECT: u8 = 3;
pub const FC_OPERATE: u8 = 4;
pub const FC_DIRECT_OPERATE: u8 = 5;
/// Qualifier: 16-bit count, each object prefixed by a 16-bit index.
pub const QUALIFIER_COUNT_AND_PREFIX_16: u8 = 0x28;
/// Application control byte of a single-fragment request, before the sequence number.
pub const REQUEST_CONTROL: u8 = 0xC0;

pub open spec fn le32(x: u32) -> Seq<u8> {
    seq![
        (x % 0x100) as u8,
        ((x / 0x100) % 0x100) as u8,
        ((x / 0x1_0000) % 0x100) as u8,
        (x / 0x100_0000) as u8,
    ]
}

pub open spec fn function_code(state: State) -> u8 {
    match state {
        State::Select => FC_SELECT,
        State::Operate => FC_OPERATE,
        State::DirectOperate => FC_DIRECT_OPERATE,
    }
}

/// Group and variation of the objects of one kind.
pub open spec fn group_var(kind: ValueKind) -> (u8, u8) {
    match kind {
        ValueKind::Crob => (12, 1),
        ValueKind::AnalogI32 => (41, 1),
        ValueKind::AnalogI16 => (41, 2),
    }
}

pub open spec fn value_bytes(v: CommandValue) -> Seq<u8> {
    match v {
        CommandValue::Crob(c) => seq![c.code.encode(), c.count] + le32(c.on_time) + le32(
            c.off_time,
        ),
        CommandValue::AnalogI16(x) => le16(x as u16),
        CommandValue::AnalogI32(x) => le32(x as u32),
    }
}

/// Index prefix, value, and a zero status byte.
pub open spec fn point_bytes(p: CommandPoint) -> Seq<u8> {
    le16(p.index) + value_bytes(p.value) + seq![0u8]
}

pub open spec fn points_bytes(ps: Seq<CommandPoint>) -> Seq<u8>
    decreases ps.len(),
{
    if ps.len() == 0 {
        seq![]
    } else {
        points_bytes(ps.drop_last()) + point_bytes(ps.last())
    }
}

pub open spec fn header_bytes(h: CommandHeader) -> Seq<u8> {
    seq![group_var(h.kind).0, group_var(h.kind).1, QUALIFIER_COUNT_AND_PREFIX_16] + le16(
        h.points@.len() as u16,
    ) + points_bytes(h.points@)
}

pub open spec fn headers_bytes(hs: Seq<CommandHeader>) -> Seq<u8>
    decreases hs.len(),
{
    if hs.len() == 0 {
        seq![]
    } else {
        headers_bytes(hs.drop_last()) + header_bytes(hs.last())
    }
}

/// The request fragment of a step: control byte with the sequence number,
/// function code, then every header in order.
pub open spec fn request_bytes(state: State, seq: u8, hs: Seq<CommandHeader>) -> Seq<u8> {
    seq![REQUEST_CONTROL | (seq & 0x0F), function_code(state)] + headers_bytes(hs)
}

/// Every header's point count fits its 16-bit field.
pub open spec fn counts_fit(hs: Seq<CommandHeader>) -> bool {
    forall|i: int| 0 <= i < hs.len() ==> #[trigger] hs[i].points@.len() <= u16::MAX
}

fn push_le32(out: &mut Vec<u8>, x: u32)
    ensures
        final(out)@ == old(out)@ + le32(x),
{
    out.push((x % 0x100) as u8);
    out.push(((x / 0x100) % 0x100) as u8);
    out.push(((x / 0x1_0000) % 0x100) as u8);
    out.push((x / 0x100_0000) as u8);
    assert(final(out)@ =~= old(out)@ + le32(x));
}

fn write_point(out: &mut Vec<u8>, p: &CommandPoint)
    ensures
        final(out)@ == old(out)@ + point_bytes(*p),
{
    push_le16(out, p.index);
    match p.value {
        CommandValue::Crob(c) => {
            out.push(c.code.as_u8());
            out.push(c.count);
            push_le32(out, c.on_time);
            push_le32(out, c.off_time);
        },
        CommandValue::AnalogI16(x) => {
            push_le16(out, x as u16);
        },
        CommandValue::AnalogI32(x) => {
            push_le32(out, x as u32);
        },
    }
    out.push(0u8);
    assert(final(out)@ =~= old(out)@ + point_bytes(*p));
}

fn write_header(out: &mut Vec<u8>, h: &CommandHeader)
    requires
        h.points@.len() <= u16::MAX,
    ensures
        final(out)@ == old(out)@ + header_bytes(*h),
{
    let (group, variation): (u8, u8) = match h.kind {
        ValueKind::Crob => (12, 1),
        ValueKind::AnalogI32 => (41, 1),
        ValueKind::AnalogI16 => (41, 2),
    };
    out.push(group);
    out.push(variation);
    out.push(QUALIFIER_COUNT_AND_PREFIX_16);
    push_le16(out, h.points.len() as u16);
    let start = Ghost(out@);
    let mut i: usize = 0;
    while i < h.points.len()
        invariant
            i <= h.points@.len(),
            out@ == start@ + points_bytes(h.points@.subrange(0, i as int)),
        decreases h.points@.len() - i,
    {
        proof {
            assert(h.points@.subrange(0, i as int + 1).drop_last() =~= h.points@.subrange(
                0,
                i as int,
            ));
        }
        write_point(out, &h.points[i]);
        i = i + 1;
        proof {
            assert(out@ =~= start@ + points_bytes(h.points@.subrange(0, i as int)));
        }
    }
    assert(h.points@.subrange(0, i as int) =~= h.points@);
    assert(out@ =~= old(out)@ + header_bytes(*h));
}

/// Select-before-operate or direct-operate sequence over a fixed list of headers.
pub struct CommandTask<H: CommandResultHandler> {
    state: State,
    headers: Vec<CommandHeader>,
    handler: H,
    outcome: Option<Result<(), CommandTaskError>>,
}

impl<H: CommandResultHandler> CommandTask<H> {
    pub closed spec fn step(&self) -> State {
        self.state
    }

    pub closed spec fn sent(&self) -> Seq<CommandHeader> {
        self.headers@
    }

    /// The result delivered to the handler, once it has been.
    pub closed spec fn delivered(&self) -> Option<Result<(), CommandTaskError>> {
        self.outcome
    }

    fn new(state: State, headers: Vec<CommandHeader>, handler: H) -> (r: Self)
        ensures
            r.step() == state,
            r.sent() == headers@,
            r.delivered() is None,
    {
        Self { state, headers, handler, outcome: None }
    }

    pub fn select_before_operate(headers: Vec<CommandHeader>, handler: H) -> (r: Self)
        ensures
            r.step() == State::Select,
            r.sent() == headers@,
            r.delivered() is None,
    {
        Self::new(State::Select, headers, handler)
    }

    pub fn direct_operate(headers: Vec<CommandHeader>, handler: H) -> (r: Self)
        ensures
            r.step() == State::DirectOperate,
            r.sent() == headers@,
            r.delivered() is None,
    {
        Self::new(State::DirectOperate, headers, handler)
    }

    pub fn state(&self) -> (r: State)
        ensures
            r == self.step(),
    {
        self.state
    }

    pub fn outcome(&self) -> (r: Option<Result<(), CommandTaskError>>)
        ensures
            r == self.delivered(),
    {
        self.outcome
    }

    /// The request fragment of the current step with sequence number `seq`,
    /// when it fits in `capacity` bytes.
    pub fn format(&self, seq: u8, capacity: usize) -> (r: Result<Vec<u8>, WriteError>)
        ensures
            !counts_fit(self.sent()) ==> r == Err::<Vec<u8>, WriteError>(WriteError::TooManyPoints),
            counts_fit(self.sent()) && request_bytes(self.step(), seq, self.sent()).len()
                > capacity ==> r == Err::<Vec<u8>, WriteError>(WriteError::InsufficientSpace),
            r matches Ok(v) ==> v@ == request_bytes(self.step(), seq, self.sent()) && v@.len()
                <= capacity,
            counts_fit(self.sent()) && request_bytes(self.step(), seq, self.sent()).len()
                <= capacity ==> r is Ok,
    {
        let function: u8 = match self.state {
            State::DirectOperate => FC_DIRECT_OPERATE,
            State::Select => FC_SELECT,
            State::Operate => FC_OPERATE,
        };
        let mut out: Vec<u8> = Vec::new();
        out.push(REQUEST_CONTROL | (seq & 0x0F));
        out.push(function);
        let start = Ghost(out@);
        let mut i: usize = 0;
        while i < self.headers.len()
            invariant
                i <= self.headers@.len(),
                out@ == start@ + headers_bytes(self.headers@.subrange(0, i as int)),
                forall|j: int| 0 <= j < i ==> #[trigger] self.headers@[j].points@.len() <= u16::MAX,
            decreases self.headers@.len() - i,
        {
            if self.headers[i].points.len() > 65535 {
                return Err(WriteError::TooManyPoints);
            }
            proof {
                assert(self.headers@.subrange(0, i as int + 1).drop_last() =~= self.headers@.subrange(
                    0,
                    i as int,
                ));
            }
            write_header(&mut out, &self.headers[i]);
            i = i + 1;
            proof {
                assert(out@ =~= start@ + headers_bytes(self.headers@.subrange(0, i as int)));
            }
        }
        assert(self.headers@.subrange(0, i as int) =~= self.headers@);
        assert(out@ =~= request_bytes(self.state, seq, self.headers@));
        if out.len() > capacity {
            return Err(WriteError::InsufficientSpace);
        }
        Ok(out)
    }

    /// Checks the echoed headers against those sent.
    pub fn compare(&self, headers: &Vec<EchoHeader>) -> (r: Result<(), CommandResponseError>)
        ensures
            r == compare_headers(self.sent(), headers@),
    {
        let n = self.headers.len();
        if n != headers.len() {
            return Err(CommandResponseError::HeaderCountMismatch);
        }
        let mut i: usize = 0;
        while i < n
            invariant
                n == self.headers@.len(),
                n == headers@.len(),
                i <= n,
                headers_error(self.headers@, headers@, 0) == headers_error(
                    self.headers@,
                    headers@,
                    i as int,
                ),
            decreases n - i,
        {
            match compare_header(&self.headers[i], &headers[i]) {
                Err(e) => {
                    return Err(e);
                },
                Ok(()) => {},
            }
            i = i + 1;
        }
        Ok(())
    }

    fn deliver(&mut self, result: Result<(), CommandTaskError>)
        requires
            old(self).delivered() is None,
        ensures
            final(self).delivered() == Some(result),
            final(self).step() == old(self).step(),
            final(self).sent() == old(self).sent(),
    {
        self.handler.handle(result);
        self.outcome = Some(result);
    }

    /// Handles a response: a fault completes the task with that fault; a full
    /// match advances a select to operate, and completes any other step with success.
    /// A task that has already delivered its result stays complete.
    pub fn handle(&mut self, headers: &Vec<EchoHeader>) -> (r: TaskStatus)
        ensures
            final(self).sent() == old(self).sent(),
            old(self).delivered() is Some ==> r == TaskStatus::Complete && final(self).step()
                == old(self).step() && final(self).delivered() == old(self).delivered(),
            old(self).delivered() is None ==> (final(self).step(), r, final(self).delivered())
                == handle_step(old(self).step(), old(self).sent(), headers@),
    {
        if self.outcome.is_some() {
            return TaskStatus::Complete;
        }
        match self.compare(headers) {
            Err(err) => {
                self.deliver(Err(CommandTaskError::Response(err)));
                TaskStatus::Complete
            },
            Ok(()) => match self.state {
                State::Select => {
                    self.state = State::Operate;
                    TaskStatus::ExecuteNextStep
                },
                _ => {
                    self.deliver(Ok(()));
                    TaskStatus::Complete
                },
            },
        }
    }

    /// Forwards a runner failure to the handler as the task's result.
    pub fn on_error(&mut self, error: TaskError)
        ensures
            final(self).sent() == old(self).sent(),
            final(self).step() == old(self).step(),
            old(self).delivered() is None ==> final(self).delivered() == Some(
                Err::<(), CommandTaskError>(CommandTaskError::Task(error)),
            ),
            old(self).delivered() is Some ==> final(self).delivered() == old(self).delivered(),
    {
        if self.outcome.is_none() {
            self.deliver(Err(CommandTaskError::Task(error)));
        }
    }
}

proof fn lemma_points_all_ok(sent: Seq<CommandPoint>, echo: Seq<EchoPoint>, i: int, j: int)
    requires
        0 <= i <= j < sent.len(),
        sent.len() == echo.len(),
        points_error(sent, echo, i) is None,
    ensures
        point_error(sent[j], echo[j]) is None,
    decreases j - i,
{
    if i < j {
        lemma_points_all_ok(sent, echo, i + 1, j);
    }
}

proof fn lemma_headers_all_ok(sent: Seq<CommandHeader>, echo: Seq<EchoHeader>, i: int, k: int)
    requires
        0 <= i <= k < sent.len(),
        sent.len() == echo.len(),
        headers_error(sent, echo, i) is None,
    ensures
        header_error(sent[k], echo[k]) is None,
    decreases k - i,
{
    if i < k {
        lemma_headers_all_ok(sent, echo, i + 1, k);
    }
}

/// A response with a failing status on any point completes a select with a
/// response fault, and never advances it to operate.
pub proof fn lemma_bad_status_completes_select(
    sent: Seq<CommandHeader>,
    echo: Seq<EchoHeader>,
    k: int,
    j: int,
)
    requires
        0 <= k < echo.len(),
        0 <= j < echo[k].points@.len(),
        echo[k].points@[j].status != STATUS_SUCCESS,
    ensures
        compare_headers(sent, echo) is Err,
        handle_step(State::Select, sent, echo) == (
            State::Select,
            TaskStatus::Complete,
            Some(Err::<(), CommandTaskError>(CommandTaskError::Response(compare_headers(sent, echo)->Err_0))),
        ),
{
    if compare_headers(sent, echo) is Ok {
        lemma_headers_all_ok(sent, echo, 0, k);
        lemma_points_all_ok(sent[k].points@, echo[k].points@, 0, j);
    }
}

/// A fully matching response advances a select to operate and asks for the next
/// step; it completes an operate or a direct operate with success.
pub proof fn lemma_matching_echo(sent: Seq<CommandHeader>, echo: Seq<EchoHeader>)
    requires
        compare_headers(sent, echo) is Ok,
    ensures
        handle_step(State::Select, sent, echo) == (
            State::Operate,
            TaskStatus::ExecuteNextStep,
            None::<Result<(), CommandTaskError>>,
        ),
        handle_step(State::Operate, sent, echo) == (
            State::Operate,
            TaskStatus::Complete,
            Some(Ok::<(), CommandTaskError>(())),
        ),
        handle_step(State::DirectOperate, sent, echo) == (
            State::DirectOperate,
            TaskStatus::Complete,
            Some(Ok::<(), CommandTaskError>(())),
        ),
{
}

/// A response with one header fewer or one more than the request is a header
/// count mismatch, whatever the headers that are present hold.
pub proof fn lemma_header_count_mismatch(sent: Seq<CommandHeader>, echo: Seq<EchoHeader>)
    requires
        echo.len() + 1 == sent.len() || echo.len() == sent.len() + 1,
    ensures
        compare_headers(sent, echo) == Err::<(), CommandResponseError>(
            CommandResponseError::HeaderCountMismatch,
        ),
{
}

} // verus!
