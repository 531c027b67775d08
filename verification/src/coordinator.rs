//! The render coordinator: a state machine that takes one source text to one
//! picture. Each step takes what came back from the last call and says which
//! call to make next; the calls themselves are made elsewhere.

use crate::document::{body_of, document_text, generate_html};
use crate::error::{default_message, ConversionError, ErrorKind, ErrorModel};
use crate::input::{blank, is_blank};
use crate::session::{
    document_location, launch_arguments, launch_flags, Action, ActionModel, CaptureSpec, Reply,
    ReplyModel, FILE_SCHEME, HEADLESS, HEIGHT_EXPRESSION, PAINT_EXPRESSION, SIGNAL_EXPRESSION,
};
use crate::settle::{
    elapsed, elapsed_since, signal_is_set, PollDecision, PollPolicy, SettleOutcome,
    SETTLE_CEILING_MS, SETTLE_INTERVAL_MS, SIGNAL_SET,
};
use crate::viewport::{measured_height, ViewportSpec, DEVICE_SCALE, LOGICAL_WIDTH, PROBE_HEIGHT};
use vstd::prelude::*;

verus! {

/// The phases of a conversion, in the order in which they are passed.
/// `Failed` can follow any phase but `Done`.
#[derive(Clone, Copy, Debug, PartialEq, Eq, Structural)]
pub enum Phase {
    Launching,
    Navigating,
    AwaitingSettle,
    Measuring,
    Resizing,
    AwaitingPaint,
    Capturing,
    Done,
    Failed,
}

/// Where a conversion stands: the call whose answer is awaited, and what has
/// to be remembered for the calls that follow.
#[derive(Debug, PartialEq, Eq)]
pub enum State {
    /// The document is being stored.
    StoringDocument,
    /// An engine is being looked for.
    Locating { location: String },
    /// The engine is being started.
    Opening { location: String },
    /// The probe viewport is being set.
    Framing { location: String },
    /// The document is being loaded.
    Navigating,
    /// The completion signal is being read.
    ReadingSignal { started_ms: u64 },
    /// Sleeping between two readings of the signal.
    Sleeping { started_ms: u64 },
    /// The page is being measured.
    Measuring { settled: SettleOutcome },
    /// The final viewport is being set.
    Resizing { height: u32 },
    /// Fonts and paint are being waited for.
    AwaitingPaint,
    /// The picture is being taken.
    Capturing,
    /// The picture is there.
    Done { image: Vec<u8> },
    /// The conversion failed.
    Failed { error: ConversionError },
}

/// What a `State` stands for in contracts.
pub enum StateModel {
    StoringDocument,
    Locating { location: Seq<char> },
    Opening { location: Seq<char> },
    Framing { location: Seq<char> },
    Navigating,
    ReadingSignal { started_ms: u64 },
    Sleeping { started_ms: u64 },
    Measuring { settled: SettleOutcome },
    Resizing { height: u32 },
    AwaitingPaint,
    Capturing,
    Done { image: Seq<u8> },
    Failed { error: ErrorModel },
}

impl View for State {
    type V = StateModel;

    open spec fn view(&self) -> StateModel {
        match *self {
            State::StoringDocument => StateModel::StoringDocument,
            State::Locating { location } => StateModel::Locating { location: location@ },
            State::Opening { location } => StateModel::Opening { location: location@ },
            State::Framing { location } => StateModel::Framing { location: location@ },
            State::Navigating => StateModel::Navigating,
            State::ReadingSignal { started_ms } => StateModel::ReadingSignal { started_ms },
            State::Sleeping { started_ms } => StateModel::Sleeping { started_ms },
            State::Measuring { settled } => StateModel::Measuring { settled },
            State::Resizing { height } => StateModel::Resizing { height },
            State::AwaitingPaint => StateModel::AwaitingPaint,
            State::Capturing => StateModel::Capturing,
            State::Done { image } => StateModel::Done { image: image@ },
            State::Failed { error } => StateModel::Failed { error: error@ },
        }
    }
}

/// The phase that a state belongs to.
pub open spec fn phase_of(state: StateModel) -> Phase {
    match state {
        StateModel::StoringDocument => Phase::Launching,
        StateModel::Locating { .. } => Phase::Launching,
        StateModel::Opening { .. } => Phase::Launching,
        StateModel::Framing { .. } => Phase::Launching,
        StateModel::Navigating => Phase::Navigating,
        StateModel::ReadingSignal { .. } => Phase::AwaitingSettle,
        StateModel::Sleeping { .. } => Phase::AwaitingSettle,
        StateModel::Measuring { .. } => Phase::Measuring,
        StateModel::Resizing { .. } => Phase::Resizing,
        StateModel::AwaitingPaint => Phase::AwaitingPaint,
        StateModel::Capturing => Phase::Capturing,
        StateModel::Done { .. } => Phase::Done,
        StateModel::Failed { .. } => Phase::Failed,
    }
}

/// Whether a conversion in this state is over.
pub open spec fn is_over(state: StateModel) -> bool {
    phase_of(state) == Phase::Done || phase_of(state) == Phase::Failed
}

/// The message of a failure: the text that came with the reply, or the
/// standing message of the kind.
pub open spec fn failure_message(kind: ErrorKind, reply: ReplyModel) -> Seq<char> {
    match reply {
        ReplyModel::Failed(text) => text,
        _ => default_message(kind),
    }
}

/// The end of a conversion whose pending call did not bring what was awaited.
pub open spec fn failure(kind: ErrorKind, reply: ReplyModel) -> (StateModel, ActionModel) {
    (
        StateModel::Failed { error: ErrorModel { kind, message: failure_message(kind, reply) } },
        ActionModel::Teardown,
    )
}

/// The state and the call that follow a decision of the settle policy.
pub open spec fn settle_move(started_ms: u64, decision: PollDecision) -> (StateModel, ActionModel) {
    match decision {
        PollDecision::Probe => (
            StateModel::ReadingSignal { started_ms },
            ActionModel::ReadSignal(SIGNAL_EXPRESSION@),
        ),
        PollDecision::Sleep(ms) => (StateModel::Sleeping { started_ms }, ActionModel::Sleep(ms)),
        PollDecision::Finished(settled) => (
            StateModel::Measuring { settled },
            ActionModel::MeasureHeight(HEIGHT_EXPRESSION@),
        ),
    }
}

/// The first state and call of a conversion: a blank source ends it at once
/// as unavailable input, with nothing to release; any other source is
/// synthesised into a page that is to be stored.
pub open spec fn begin_spec(source: Seq<char>, engine: Seq<char>, fallback_ms: u32) -> (
    StateModel,
    ActionModel,
) {
    if blank(source) {
        (
            StateModel::Failed {
                error: ErrorModel {
                    kind: ErrorKind::InputUnavailable,
                    message: default_message(ErrorKind::InputUnavailable),
                },
            },
            ActionModel::Stop,
        )
    } else {
        (
            StateModel::StoringDocument,
            ActionModel::StoreDocument(document_text(engine, fallback_ms as nat, body_of(source))),
        )
    }
}

/// One step of a conversion: from the state and what came back from the
/// pending call, at `now_ms` on a clock that does not run backwards, to the
/// next state and the next call. An answer other than the awaited one counts
/// as the call having failed.
pub open spec fn step_spec(state: StateModel, now_ms: u64, reply: ReplyModel) -> (
    StateModel,
    ActionModel,
) {
    match state {
        StateModel::StoringDocument => match reply {
            ReplyModel::Stored(path) => (
                StateModel::Locating { location: FILE_SCHEME@ + path },
                ActionModel::LocateEngine,
            ),
            _ => failure(ErrorKind::OutputWriteFailure, reply),
        },
        StateModel::Locating { location } => match reply {
            ReplyModel::EngineLocated(path) => (
                StateModel::Opening { location },
                ActionModel::Launch {
                    engine_path: path,
                    headless: HEADLESS,
                    window: ViewportSpec::at_height(PROBE_HEIGHT),
                    arguments: launch_flags(),
                },
            ),
            _ => failure(ErrorKind::EngineNotFound, reply),
        },
        StateModel::Opening { location } => match reply {
            ReplyModel::Completed => (
                StateModel::Framing { location },
                ActionModel::SetViewport(ViewportSpec::at_height(PROBE_HEIGHT)),
            ),
            _ => failure(ErrorKind::EngineLaunchFailure, reply),
        },
        StateModel::Framing { location } => match reply {
            ReplyModel::Completed => (StateModel::Navigating, ActionModel::Navigate(location)),
            _ => failure(ErrorKind::EngineLaunchFailure, reply),
        },
        StateModel::Navigating => match reply {
            ReplyModel::Completed => settle_move(
                now_ms,
                PollPolicy::standard_policy().wake_decision(0),
            ),
            _ => failure(ErrorKind::NavigationFailure, reply),
        },
        StateModel::ReadingSignal { started_ms } => settle_move(
            started_ms,
            PollPolicy::standard_policy().reading_decision(
                reply == ReplyModel::Signal(SIGNAL_SET@),
            ),
        ),
        StateModel::Sleeping { started_ms } => settle_move(
            started_ms,
            PollPolicy::standard_policy().wake_decision(elapsed(started_ms, now_ms)),
        ),
        StateModel::Measuring { .. } => {
            let height = match reply {
                ReplyModel::Height(h) => h,
                _ => PROBE_HEIGHT,
            };
            (
                StateModel::Resizing { height },
                ActionModel::SetViewport(ViewportSpec::at_height(height)),
            )
        },
        StateModel::Resizing { .. } => match reply {
            ReplyModel::Completed => (
                StateModel::AwaitingPaint,
                ActionModel::AwaitPaint(PAINT_EXPRESSION@),
            ),
            _ => failure(ErrorKind::CaptureFailure, reply),
        },
        StateModel::AwaitingPaint => match reply {
            ReplyModel::Completed => (
                StateModel::Capturing,
                ActionModel::Capture(CaptureSpec::standard_spec()),
            ),
            _ => failure(ErrorKind::CaptureFailure, reply),
        },
        StateModel::Capturing => match reply {
            ReplyModel::Image(image) => (StateModel::Done { image }, ActionModel::Teardown),
            _ => failure(ErrorKind::CaptureFailure, reply),
        },
        StateModel::Done { .. } => (state, ActionModel::Stop),
        StateModel::Failed { .. } => (state, ActionModel::Stop),
    }
}

fn fail(kind: ErrorKind, reply: Reply) -> (next: (State, Action))
    ensures
        (next.0@, next.1@) == failure(kind, reply@),
{
    let error = match reply {
        Reply::Failed(text) => ConversionError::new(kind, text),
        _ => ConversionError::of_kind(kind),
    };
    (State::Failed { error }, Action::Teardown)
}

fn settle(started_ms: u64, decision: PollDecision) -> (next: (State, Action))
    ensures
        (next.0@, next.1@) == settle_move(started_ms, decision),
{
    match decision {
        PollDecision::Probe => (
            State::ReadingSignal { started_ms },
            Action::ReadSignal(SIGNAL_EXPRESSION),
        ),
        PollDecision::Sleep(ms) => (State::Sleeping { started_ms }, Action::Sleep(ms)),
        PollDecision::Finished(settled) => (
            State::Measuring { settled },
            Action::MeasureHeight(HEIGHT_EXPRESSION),
        ),
    }
}

/// Begins a conversion of `source`, with `engine` as the source of the
/// typesetting engine and `fallback_ms` as the page's own deadline for its
/// completion signal.
pub fn begin(source: &str, engine: &str, fallback_ms: u32) -> (first: (State, Action))
    ensures
        (first.0@, first.1@) == begin_spec(source@, engine@, fallback_ms),
{
    if is_blank(source) {
        (
            State::Failed { error: ConversionError::of_kind(ErrorKind::InputUnavailable) },
            Action::Stop,
        )
    } else {
        (State::StoringDocument, Action::StoreDocument(generate_html(source, engine, fallback_ms)))
    }
}

/// Takes one step of a conversion.
pub fn step(state: State, now_ms: u64, reply: Reply) -> (next: (State, Action))
    ensures
        (next.0@, next.1@) == step_spec(state@, now_ms, reply@),
{
    let policy = PollPolicy::standard();
    match state {
        State::StoringDocument => match reply {
            Reply::Stored(path) => (
                State::Locating { location: document_location(path.as_str()) },
                Action::LocateEngine,
            ),
            other => fail(ErrorKind::OutputWriteFailure, other),
        },
        State::Locating { location } => match reply {
            Reply::EngineLocated(path) => (
                State::Opening { location },
                Action::Launch {
                    engine_path: path,
                    headless: HEADLESS,
                    window: ViewportSpec::probe(),
                    arguments: launch_arguments(),
                },
            ),
            other => fail(ErrorKind::EngineNotFound, other),
        },
        State::Opening { location } => match reply {
            Reply::Completed => (
                State::Framing { location },
                Action::SetViewport(ViewportSpec::probe()),
            ),
            other => fail(ErrorKind::EngineLaunchFailure, other),
        },
        State::Framing { location } => match reply {
            Reply::Completed => (State::Navigating, Action::Navigate(location)),
            other => fail(ErrorKind::EngineLaunchFailure, other),
        },
        State::Navigating => match reply {
            Reply::Completed => settle(now_ms, policy.after_sleep(0)),
            other => fail(ErrorKind::NavigationFailure, other),
        },
        State::ReadingSignal { started_ms } => {
            let set = match reply {
                Reply::Signal(text) => signal_is_set(text.as_str()),
                _ => false,
            };
            settle(started_ms, policy.after_reading(set))
        },
        State::Sleeping { started_ms } => settle(
            started_ms,
            policy.after_sleep(elapsed_since(started_ms, now_ms)),
        ),
        State::Measuring { settled: _ } => {
            let reading = match reply {
                Reply::Height(h) => Some(h),
                _ => None,
            };
            let height = measured_height(reading);
            (State::Resizing { height }, Action::SetViewport(ViewportSpec::fitted(height)))
        },
        State::Resizing { height: _ } => match reply {
            Reply::Completed => (State::AwaitingPaint, Action::AwaitPaint(PAINT_EXPRESSION)),
            other => fail(ErrorKind::CaptureFailure, other),
        },
        State::AwaitingPaint => match reply {
            Reply::Completed => (State::Capturing, Action::Capture(CaptureSpec::standard())),
            other => fail(ErrorKind::CaptureFailure, other),
        },
        State::Capturing => match reply {
            Reply::Image(image) => (State::Done { image }, Action::Teardown),
            other => fail(ErrorKind::CaptureFailure, other),
        },
        State::Done { image } => (State::Done { image }, Action::Stop),
        State::Failed { error } => (State::Failed { error }, Action::Stop),
    }
}

impl State {
    /// The phase of this state.
    pub fn phase(&self) -> (phase: Phase)
        ensures
            phase == phase_of(self@),
    {
        match self {
            State::StoringDocument => Phase::Launching,
            State::Locating { .. } => Phase::Launching,
            State::Opening { .. } => Phase::Launching,
            State::Framing { .. } => Phase::Launching,
            State::Navigating => Phase::Navigating,
            State::ReadingSignal { .. } => Phase::AwaitingSettle,
            State::Sleeping { .. } => Phase::AwaitingSettle,
            State::Measuring { .. } => Phase::Measuring,
            State::Resizing { .. } => Phase::Resizing,
            State::AwaitingPaint => Phase::AwaitingPaint,
            State::Capturing => Phase::Capturing,
            State::Done { .. } => Phase::Done,
            State::Failed { .. } => Phase::Failed,
        }
    }

    /// Whether the conversion is over.
    pub fn over(&self) -> (over: bool)
        ensures
            over == is_over(self@),
    {
        match self {
            State::Done { .. } => true,
            State::Failed { .. } => true,
            _ => false,
        }
    }

    /// The result of a conversion that is over: the picture or the failure.
    /// A conversion that still runs has none.
    pub fn into_outcome(self) -> (outcome: Option<Result<Vec<u8>, ConversionError>>)
        ensures
            match outcome {
                Some(Ok(bytes)) => self@ == (StateModel::Done { image: bytes@ }),
                Some(Err(e)) => self@ == (StateModel::Failed { error: e@ }),
                None => !is_over(self@),
            },
    {
        match self {
            State::Done { image } => Some(Ok(image)),
            State::Failed { error } => Some(Err(error)),
            _ => None,
        }
    }
}

/// The place of a phase in the order of a conversion.
pub open spec fn rank(phase: Phase) -> nat {
    match phase {
        Phase::Launching => 0,
        Phase::Navigating => 1,
        Phase::AwaitingSettle => 2,
        Phase::Measuring => 3,
        Phase::Resizing => 4,
        Phase::AwaitingPaint => 5,
        Phase::Capturing => 6,
        Phase::Done => 7,
        Phase::Failed => 8,
    }
}

/// The state after a run of steps, each given by its time and its reply.
pub open spec fn run(state: StateModel, inputs: Seq<(u64, ReplyModel)>) -> StateModel
    decreases inputs.len(),
{
    if inputs.len() == 0 {
        state
    } else {
        run(step_spec(state, inputs[0].0, inputs[0].1).0, inputs.drop_first())
    }
}

/// The calls asked for during a run of steps, in order.
pub open spec fn trace(state: StateModel, inputs: Seq<(u64, ReplyModel)>) -> Seq<ActionModel>
    decreases inputs.len(),
{
    if inputs.len() == 0 {
        Seq::empty()
    } else {
        let next = step_spec(state, inputs[0].0, inputs[0].1);
        seq![next.1] + trace(next.0, inputs.drop_first())
    }
}

/// How often a run of steps asks for the teardown.
pub open spec fn teardowns(state: StateModel, inputs: Seq<(u64, ReplyModel)>) -> nat
    decreases inputs.len(),
{
    if inputs.len() == 0 {
        0
    } else {
        let next = step_spec(state, inputs[0].0, inputs[0].1);
        let here: nat = if next.1 == ActionModel::Teardown {
            1
        } else {
            0
        };
        here + teardowns(next.0, inputs.drop_first())
    }
}

/// The viewport that a call sets, if it sets one.
pub open spec fn viewport_of(action: ActionModel) -> Option<ViewportSpec> {
    match action {
        ActionModel::Launch { window, .. } => Some(window),
        ActionModel::SetViewport(v) => Some(v),
        _ => None,
    }
}

/// Whether a call is made on the page of a running engine.
pub open spec fn needs_page(action: ActionModel) -> bool {
    match action {
        ActionModel::SetViewport(_) => true,
        ActionModel::Navigate(_) => true,
        ActionModel::ReadSignal(_) => true,
        ActionModel::MeasureHeight(_) => true,
        ActionModel::AwaitPaint(_) => true,
        ActionModel::Capture(_) => true,
        _ => false,
    }
}

/// A step keeps the phase, moves to the next phase in order, or fails; a
/// finished conversion does not fail any more.
pub proof fn lemma_phases_in_order(state: StateModel, now_ms: u64, reply: ReplyModel)
    ensures
        ({
            let before = phase_of(state);
            let after = phase_of(step_spec(state, now_ms, reply).0);
            ||| after == before
            ||| after != Phase::Failed && rank(after) == rank(before) + 1
            ||| after == Phase::Failed && before != Phase::Done
        }),
{
}

/// The guard on the source: a blank source fails as unavailable input at
/// once, and nothing is ever stored for it or asked of an engine, whatever
/// replies are then fed to the conversion.
pub proof fn lemma_blank_source_reaches_no_engine(
    source: Seq<char>,
    engine: Seq<char>,
    fallback_ms: u32,
    inputs: Seq<(u64, ReplyModel)>,
)
    requires
        blank(source),
    ensures
        begin_spec(source, engine, fallback_ms).1 == ActionModel::Stop,
        begin_spec(source, engine, fallback_ms).0 matches StateModel::Failed { error }
            && error.kind == ErrorKind::InputUnavailable,
        run(begin_spec(source, engine, fallback_ms).0, inputs) == begin_spec(
            source,
            engine,
            fallback_ms,
        ).0,
        forall|i: int|
            0 <= i < inputs.len() ==> #[trigger] trace(
                begin_spec(source, engine, fallback_ms).0,
                inputs,
            )[i] == ActionModel::Stop,
{
    let first = begin_spec(source, engine, fallback_ms).0;
    lemma_over_stays_over(first, inputs);
}

/// A conversion that is over stays as it is and asks for nothing more.
pub proof fn lemma_over_stays_over(state: StateModel, inputs: Seq<(u64, ReplyModel)>)
    requires
        is_over(state),
    ensures
        run(state, inputs) == state,
        trace(state, inputs).len() == inputs.len(),
        forall|i: int| 0 <= i < inputs.len() ==> #[trigger] trace(state, inputs)[i] == ActionModel::Stop,
        teardowns(state, inputs) == 0,
    decreases inputs.len(),
{
    if inputs.len() > 0 {
        lemma_over_stays_over(state, inputs.drop_first());
    }
}

/// The viewport never changes but in height: whichever two calls of a
/// conversion set a viewport, at launch, for the probe or for the capture,
/// both give the same width, pixel density and mobile emulation.
pub proof fn lemma_viewport_invariant(
    first: StateModel,
    first_ms: u64,
    first_reply: ReplyModel,
    second: StateModel,
    second_ms: u64,
    second_reply: ReplyModel,
)
    ensures
        ({
            let a = viewport_of(step_spec(first, first_ms, first_reply).1);
            let b = viewport_of(step_spec(second, second_ms, second_reply).1);
            a is Some && b is Some ==> {
                &&& a->0.width == b->0.width == LOGICAL_WIDTH
                &&& a->0.device_scale == b->0.device_scale == DEVICE_SCALE
                &&& a->0.mobile && b->0.mobile
            }
        }),
{
}

/// The capture is taken at the measured height: the viewport set after the
/// measurement has the height that the page reported, or the probe height
/// where it reported none.
pub proof fn lemma_resize_to_measured(state: StateModel, now_ms: u64, reply: ReplyModel)
    requires
        phase_of(state) == Phase::Measuring,
    ensures
        step_spec(state, now_ms, reply).1 == ActionModel::SetViewport(
            ViewportSpec::at_height(
                match reply {
                    ReplyModel::Height(h) => h,
                    _ => PROBE_HEIGHT,
                },
            ),
        ),
        phase_of(step_spec(state, now_ms, reply).0) == Phase::Resizing,
{
}

/// Whether the engine has been started in this state and not yet been ended.
pub open spec fn engine_open(state: StateModel) -> bool {
    match state {
        StateModel::Framing { .. } => true,
        StateModel::Navigating => true,
        StateModel::ReadingSignal { .. } => true,
        StateModel::Sleeping { .. } => true,
        StateModel::Measuring { .. } => true,
        StateModel::Resizing { .. } => true,
        StateModel::AwaitingPaint => true,
        StateModel::Capturing => true,
        _ => false,
    }
}

/// Nothing is asked of a page that is not there: the engine is started only
/// once it has been located, it counts as open only from the step on which
/// its launch has returned, and only while it is open is a call made on its
/// page.
pub proof fn lemma_page_asked_only_when_open(state: StateModel, now_ms: u64, reply: ReplyModel)
    ensures
        ({
            let next = step_spec(state, now_ms, reply);
            &&& next.1 is Launch ==> state is Locating && reply is EngineLocated
            &&& needs_page(next.1) ==> engine_open(next.0)
            &&& engine_open(next.0) ==> engine_open(state) || (state is Opening && reply
                == ReplyModel::Completed)
        }),
{
}

/// No picture without a capture: a conversion becomes done only by the step
/// that takes the picture from the engine, and is then done with exactly that
/// picture.
pub proof fn lemma_done_only_after_capture(state: StateModel, now_ms: u64, reply: ReplyModel)
    requires
        phase_of(state) != Phase::Done,
        phase_of(step_spec(state, now_ms, reply).0) == Phase::Done,
    ensures
        state == StateModel::Capturing,
        reply matches ReplyModel::Image(image) && step_spec(state, now_ms, reply).0 == (
            StateModel::Done { image }
        ),
{
}

/// Teardown on every exit: the step that ends a conversion, well or badly,
/// asks for the teardown; no other step does; and a conversion that is over
/// asks only to stop.
pub proof fn lemma_teardown_on_exit(state: StateModel, now_ms: u64, reply: ReplyModel)
    ensures
        ({
            let next = step_spec(state, now_ms, reply);
            &&& next.1 == ActionModel::Teardown <==> !is_over(state) && is_over(next.0)
            &&& next.1 == ActionModel::Stop <==> is_over(state)
            &&& is_over(state) ==> next.0 == state
        }),
{
}

/// Released exactly once: over any run of steps from a conversion that is
/// not over, the teardown is asked for once if the run ends the conversion,
/// and not at all if it does not.
pub proof fn lemma_released_exactly_once(state: StateModel, inputs: Seq<(u64, ReplyModel)>)
    requires
        !is_over(state),
    ensures
        teardowns(state, inputs) == if is_over(run(state, inputs)) {
            1nat
        } else {
            0nat
        },
    decreases inputs.len(),
{
    if inputs.len() > 0 {
        let next = step_spec(state, inputs[0].0, inputs[0].1);
        lemma_teardown_on_exit(state, inputs[0].0, inputs[0].1);
        if is_over(next.0) {
            lemma_over_stays_over(next.0, inputs.drop_first());
        } else {
            lemma_released_exactly_once(next.0, inputs.drop_first());
        }
    }
}

/// Every outcome is released: a conversion that has come to its end, well
/// or badly, either was refused at once for a blank source, with nothing
/// stored and no engine started, or has asked for the teardown exactly once.
pub proof fn lemma_every_outcome_is_released(
    source: Seq<char>,
    engine: Seq<char>,
    fallback_ms: u32,
    inputs: Seq<(u64, ReplyModel)>,
)
    requires
        is_over(run(begin_spec(source, engine, fallback_ms).0, inputs)),
    ensures
        if blank(source) {
            &&& begin_spec(source, engine, fallback_ms).1 == ActionModel::Stop
            &&& teardowns(begin_spec(source, engine, fallback_ms).0, inputs) == 0
        } else {
            teardowns(begin_spec(source, engine, fallback_ms).0, inputs) == 1
        },
{
    let first = begin_spec(source, engine, fallback_ms).0;
    if blank(source) {
        lemma_over_stays_over(first, inputs);
    } else {
        lemma_released_exactly_once(first, inputs);
    }
}

/// The wait goes on only below the ceiling: on waking, a conversion reads
/// the signal again exactly if no more than the ceiling has elapsed since
/// the wait began, and otherwise goes on to measure the page as it is.
pub proof fn lemma_wait_goes_on_only_below_ceiling(started_ms: u64, now_ms: u64, reply: ReplyModel)
    ensures
        ({
            let next = step_spec(StateModel::Sleeping { started_ms }, now_ms, reply);
            if elapsed(started_ms, now_ms) <= SETTLE_CEILING_MS {
                next == (
                    StateModel::ReadingSignal { started_ms },
                    ActionModel::ReadSignal(SIGNAL_EXPRESSION@),
                )
            } else {
                next == (
                    StateModel::Measuring { settled: SettleOutcome::SettledByDeadline },
                    ActionModel::MeasureHeight(HEIGHT_EXPRESSION@),
                )
            }
        }),
{
}

/// A run of steps never goes back to an earlier phase.
pub proof fn lemma_run_is_monotone(state: StateModel, inputs: Seq<(u64, ReplyModel)>)
    ensures
        rank(phase_of(run(state, inputs))) >= rank(phase_of(state)),
    decreases inputs.len(),
{
    if inputs.len() > 0 {
        lemma_phases_in_order(state, inputs[0].0, inputs[0].1);
        lemma_run_is_monotone(step_spec(state, inputs[0].0, inputs[0].1).0, inputs.drop_first());
    }
}

/// The number of steps after which the wait for the signal is surely over:
/// one reading and one sleep for each interval up to the ceiling, and one
/// more of each.
pub open spec fn settle_steps() -> nat {
    (2 * (SETTLE_CEILING_MS / SETTLE_INTERVAL_MS + 1)) as nat
}

/// The wait for the signal ends. Take a conversion that starts to read the
/// signal at `started_ms`, and any replies at all, set or never set. If the
/// `k`-th waking comes at least `k` intervals after the start, as it does
/// where every sleep lasts at least the interval, then after `settle_steps`
/// steps at the latest the conversion has left the wait.
pub proof fn lemma_settle_ends(started_ms: u64, inputs: Seq<(u64, ReplyModel)>)
    requires
        inputs.len() >= settle_steps(),
        forall|k: int|
            0 <= k && 2 * k + 1 < inputs.len() ==> (#[trigger] inputs[2 * k + 1]).0 - started_ms
                >= (k + 1) * SETTLE_INTERVAL_MS,
    ensures
        rank(phase_of(run(StateModel::ReadingSignal { started_ms }, inputs))) > rank(
            Phase::AwaitingSettle,
        ),
{
    lemma_settle_ends_from(started_ms, inputs, 0);
}

proof fn lemma_settle_ends_from(started_ms: u64, inputs: Seq<(u64, ReplyModel)>, done: nat)
    requires
        done <= SETTLE_CEILING_MS / SETTLE_INTERVAL_MS,
        inputs.len() + 2 * done >= settle_steps(),
        forall|k: int|
            0 <= k && 2 * k + 1 < inputs.len() ==> (#[trigger] inputs[2 * k + 1]).0 - started_ms
                >= (done + k + 1) * SETTLE_INTERVAL_MS,
    ensures
        rank(phase_of(run(StateModel::ReadingSignal { started_ms }, inputs))) > rank(
            Phase::AwaitingSettle,
        ),
    decreases SETTLE_CEILING_MS / SETTLE_INTERVAL_MS - done,
{
    let reading = StateModel::ReadingSignal { started_ms };
    let after_reading = step_spec(reading, inputs[0].0, inputs[0].1).0;
    let rest = inputs.drop_first();
    if after_reading == (StateModel::Sleeping { started_ms }) {
        let first: int = 0;
        assert(rest[0] == inputs[2 * first + 1]);
        let after_sleep = step_spec(after_reading, rest[0].0, rest[0].1).0;
        let tail = rest.drop_first();
        assert(run(reading, inputs) == run(after_sleep, tail));
        if after_sleep == reading {
            assert(elapsed(started_ms, rest[0].0) <= SETTLE_CEILING_MS);
            assert(done < SETTLE_CEILING_MS / SETTLE_INTERVAL_MS);
            assert forall|k: int| 0 <= k && 2 * k + 1 < tail.len() implies (#[trigger] tail[2 * k
                + 1]).0 - started_ms >= (done + 1 + k + 1) * SETTLE_INTERVAL_MS by {
                assert(tail[2 * k + 1] == inputs[2 * (k + 1) + 1]);
            }
            lemma_settle_ends_from(started_ms, tail, done + 1);
        } else {
            lemma_run_is_monotone(after_sleep, tail);
        }
    } else {
        lemma_run_is_monotone(after_reading, rest);
    }
}

} // verus!
