use vstd::prelude::*;
use crate::error::{Error, ErrorView, result_view};
use crate::guest::{
    GuestKind, ENTRY_NAME, EXPORT_NAME, check_entry, check_export, check_loaded, entry_outcome,
    export_outcome, load_outcome, take_text, text_outcome,
};
use crate::options::{OptEntry, Opts, entries_view, guest_options};

verus! {

/// Where a render call stands. Every call walks these in order and never
/// comes back to an earlier one.
#[derive(Clone, Copy, PartialEq, Eq, Structural, Debug)]
pub enum Phase {
    Fresh,
    Booting,
    Opening,
    Loading,
    Exporting,
    Resolving,
    Calling,
    Converting,
    Finished,
}

/// What the host reports after carrying out the last action.
#[derive(Debug)]
pub enum Event {
    /// The action completed and has nothing to report.
    Ready,
    /// The bundled script was compiled and run (`true`), or either failed.
    Loaded(bool),
    /// What a property read found.
    Found(GuestKind),
    /// The entry point returned a value.
    Returned,
    /// The entry point threw; the exception as text.
    Threw(String),
    /// The returned value as host text, or `None` where the coercion failed.
    Text(Option<String>),
}

/// What the host is to do next.
#[derive(Debug)]
pub enum Action {
    /// Bring up the engine once per process.
    Bootstrap,
    /// Create a fresh isolate with one context, and enter it.
    OpenSession,
    /// Compile and run the bundled script in the session's context.
    LoadLibrary,
    /// Read this global binding.
    ReadExport(String),
    /// Read this property of the exported object.
    ReadEntry(String),
    /// Call the entry point on the exported object, with the input text and an
    /// options object holding exactly these pairs, in this order.
    Invoke(String, Vec<OptEntry>),
    /// Coerce the returned value to a string and copy it out lossily.
    Stringify,
    /// Tear the session down and return this.
    Finish(Result<String, Error>),
}

/// An [`Event`] as mathematics.
pub enum EventView {
    Ready,
    Loaded(bool),
    Found(GuestKind),
    Returned,
    Threw(Seq<char>),
    Text(Option<Seq<char>>),
}

/// An [`Action`] as mathematics; the options object as its pairs, keys as text.
pub enum ActionView {
    Bootstrap,
    OpenSession,
    LoadLibrary,
    ReadExport(Seq<char>),
    ReadEntry(Seq<char>),
    Invoke(Seq<char>, Seq<(Seq<char>, bool)>),
    Stringify,
    Finish(Result<Seq<char>, ErrorView>),
}

impl View for Event {
    type V = EventView;

    open spec fn view(&self) -> EventView {
        match self {
            Event::Ready => EventView::Ready,
            Event::Loaded(ran) => EventView::Loaded(*ran),
            Event::Found(k) => EventView::Found(*k),
            Event::Returned => EventView::Returned,
            Event::Threw(m) => EventView::Threw(m@),
            Event::Text(t) => EventView::Text(
                match t {
                    Some(s) => Some(s@),
                    None => None,
                },
            ),
        }
    }
}

impl View for Action {
    type V = ActionView;

    open spec fn view(&self) -> ActionView {
        match self {
            Action::Bootstrap => ActionView::Bootstrap,
            Action::OpenSession => ActionView::OpenSession,
            Action::LoadLibrary => ActionView::LoadLibrary,
            Action::ReadExport(n) => ActionView::ReadExport(n@),
            Action::ReadEntry(n) => ActionView::ReadEntry(n@),
            Action::Invoke(i, o) => ActionView::Invoke(i@, entries_view(o@)),
            Action::Stringify => ActionView::Stringify,
            Action::Finish(r) => ActionView::Finish(result_view(*r)),
        }
    }
}

/// A render call as mathematics: its phase, its input text and its options.
pub struct RunView {
    pub phase: Phase,
    pub input: Seq<char>,
    pub display_mode: Option<bool>,
}

/// The phase after `p` when the call goes on.
pub open spec fn successor(p: Phase) -> Phase {
    match p {
        Phase::Fresh => Phase::Booting,
        Phase::Booting => Phase::Opening,
        Phase::Opening => Phase::Loading,
        Phase::Loading => Phase::Exporting,
        Phase::Exporting => Phase::Resolving,
        Phase::Resolving => Phase::Calling,
        Phase::Calling => Phase::Converting,
        _ => Phase::Finished,
    }
}

/// How many events a call in phase `p` can still take.
pub open spec fn rank(p: Phase) -> nat {
    match p {
        Phase::Fresh => 8,
        Phase::Booting => 7,
        Phase::Opening => 6,
        Phase::Loading => 5,
        Phase::Exporting => 4,
        Phase::Resolving => 3,
        Phase::Calling => 2,
        Phase::Converting => 1,
        Phase::Finished => 0,
    }
}

/// The events that a call in phase `p` waits for.
pub open spec fn accepts(p: Phase, e: EventView) -> bool {
    match p {
        Phase::Fresh | Phase::Booting | Phase::Opening => e is Ready,
        Phase::Loading => e is Loaded,
        Phase::Exporting | Phase::Resolving => e is Found,
        Phase::Calling => e is Returned || e is Threw,
        Phase::Converting => e is Text,
        Phase::Finished => false,
    }
}

/// Goes on with `next` after a passed check, or finishes with its error.
pub open spec fn or_finish(r: Result<(), ErrorView>, next: ActionView) -> ActionView {
    match r {
        Ok(()) => next,
        Err(e) => ActionView::Finish(Err(e)),
    }
}

/// The action that answers an accepted event.
pub open spec fn reply(v: RunView, e: EventView) -> ActionView {
    match e {
        EventView::Ready => match v.phase {
            Phase::Fresh => ActionView::Bootstrap,
            Phase::Booting => ActionView::OpenSession,
            _ => ActionView::LoadLibrary,
        },
        EventView::Loaded(ran) => or_finish(load_outcome(ran), ActionView::ReadExport(EXPORT_NAME@)),
        EventView::Found(k) => if v.phase == Phase::Exporting {
            or_finish(export_outcome(k), ActionView::ReadEntry(ENTRY_NAME@))
        } else {
            or_finish(
                entry_outcome(k),
                ActionView::Invoke(v.input, guest_options(v.display_mode)),
            )
        },
        EventView::Returned => ActionView::Stringify,
        EventView::Threw(m) => ActionView::Finish(Err(ErrorView::ExecError(m))),
        EventView::Text(t) => ActionView::Finish(text_outcome(t)),
    }
}

/// The call after an accepted event: finished where the reply is a finish.
pub open spec fn advance(v: RunView, e: EventView) -> RunView {
    RunView {
        phase: if reply(v, e) is Finish {
            Phase::Finished
        } else {
            successor(v.phase)
        },
        ..v
    }
}

/// Whether `evs` are accepted one after another by a call that starts as `v`.
pub open spec fn accepted_run(v: RunView, evs: Seq<EventView>) -> bool
    decreases evs.len(),
{
    evs.len() == 0 || (accepts(v.phase, evs[0]) && accepted_run(advance(v, evs[0]), evs.drop_first()))
}

/// Each accepted event moves the call strictly forward, keeps its input and
/// options, and finishes it exactly when the reply is a finish.
pub proof fn lemma_step_progress(v: RunView, e: EventView)
    requires
        accepts(v.phase, e),
    ensures
        rank(advance(v, e).phase) < rank(v.phase),
        advance(v, e).input == v.input,
        advance(v, e).display_mode == v.display_mode,
        (advance(v, e).phase == Phase::Finished) == (reply(v, e) is Finish),
{
}

/// A call waits for some event exactly as long as it has not finished: it
/// never gets stuck, and a finished call takes nothing more.
pub proof fn lemma_waits_until_finished(p: Phase)
    ensures
        (p != Phase::Finished) == (exists|e: EventView| accepts(p, e)),
{
    match p {
        Phase::Loading => assert(accepts(p, EventView::Loaded(true))),
        Phase::Exporting | Phase::Resolving => assert(accepts(p, EventView::Found(GuestKind::Object))),
        Phase::Calling => assert(accepts(p, EventView::Returned)),
        Phase::Converting => assert(accepts(p, EventView::Text(None))),
        Phase::Finished => {},
        _ => assert(accepts(p, EventView::Ready)),
    }
}

/// Every render call ends: whatever the guest runtime reports, a call takes
/// at most as many events as its rank, and it can only stop by finishing with
/// a string or an error.
pub proof fn lemma_every_call_ends(v: RunView, evs: Seq<EventView>)
    requires
        accepted_run(v, evs),
    ensures
        evs.len() <= rank(v.phase),
    decreases evs.len(),
{
    if evs.len() > 0 {
        lemma_step_progress(v, evs[0]);
        lemma_every_call_ends(advance(v, evs[0]), evs.drop_first());
    }
}

/// The request handed to the guest is fixed by the call's input and options,
/// and a successful result is the guest's text unchanged: two calls with equal
/// input and options send equal requests and return what the guest answered.
pub proof fn lemma_result_follows_request(v: RunView, e: EventView, s: Seq<char>)
    requires
        accepts(v.phase, e),
    ensures
        v.phase == Phase::Resolving ==> reply(v, EventView::Found(GuestKind::Function))
            == ActionView::Invoke(v.input, guest_options(v.display_mode)),
        reply(v, e) == ActionView::Finish(Ok(s)) ==> v.phase == Phase::Converting && e
            == EventView::Text(Some(s)),
{
}

/// An unset option is left out of the request, so the guest's default applies.
pub proof fn lemma_unset_option_omitted(v: RunView)
    requires
        v.phase == Phase::Resolving,
        v.display_mode is None,
    ensures
        reply(v, EventView::Found(GuestKind::Function)) == ActionView::Invoke(
            v.input,
            Seq::<(Seq<char>, bool)>::empty(),
        ),
{
    assert(guest_options(v.display_mode) =~= Seq::<(Seq<char>, bool)>::empty());
}

/// Input that the guest library rejects ends the call with an execution error
/// carrying the guest's exception text.
pub proof fn lemma_guest_throw_is_exec_error(v: RunView, m: Seq<char>)
    requires
        v.phase == Phase::Calling,
    ensures
        reply(v, EventView::Threw(m)) == ActionView::Finish(Err(ErrorView::ExecError(m))),
        advance(v, EventView::Threw(m)).phase == Phase::Finished,
{
}

/// An exported binding that is absent or not a plain object ends the call with
/// a value error.
pub proof fn lemma_bad_export_is_value_error(v: RunView, k: GuestKind)
    requires
        v.phase == Phase::Exporting,
        k != GuestKind::Object,
    ensures
        reply(v, EventView::Found(k)) matches ActionView::Finish(Err(ErrorView::ValueError(_))),
        advance(v, EventView::Found(k)).phase == Phase::Finished,
{
}

/// One render call's decisions: which guest operation comes next, and how each
/// outcome is answered. The host carries out each action and reports back.
pub struct RenderRun {
    phase: Phase,
    input: String,
    opts: Opts,
}

impl View for RenderRun {
    type V = RunView;

    closed spec fn view(&self) -> RunView {
        RunView { phase: self.phase, input: self.input@, display_mode: self.opts@ }
    }
}

impl RenderRun {
    /// A fresh call on `input` with `opts`; it holds nothing from any other call.
    pub fn new(input: &str, opts: &Opts) -> (r: RenderRun)
        ensures
            r@ == (RunView { phase: Phase::Fresh, input: input@, display_mode: opts@ }),
    {
        RenderRun { phase: Phase::Fresh, input: input.to_owned(), opts: *opts }
    }

    /// The phase the call stands in.
    pub fn phase(&self) -> (r: Phase)
        ensures
            r == self@.phase,
    {
        self.phase
    }

    /// Whether the call waits for `e` now.
    pub fn expects(&self, e: &Event) -> (r: bool)
        ensures
            r == accepts(self@.phase, e@),
    {
        match self.phase {
            Phase::Fresh | Phase::Booting | Phase::Opening => matches!(e, Event::Ready),
            Phase::Loading => matches!(e, Event::Loaded(_)),
            Phase::Exporting | Phase::Resolving => matches!(e, Event::Found(_)),
            Phase::Calling => matches!(e, Event::Returned | Event::Threw(_)),
            Phase::Converting => matches!(e, Event::Text(_)),
            Phase::Finished => false,
        }
    }

    /// Takes the outcome of the last action and names the next one.
    pub fn step(&mut self, e: Event) -> (a: Action)
        requires
            accepts(old(self)@.phase, e@),
        ensures
            a@ == reply(old(self)@, e@),
            final(self)@ == advance(old(self)@, e@),
    {
        let a = match e {
            Event::Ready => match self.phase {
                Phase::Fresh => Action::Bootstrap,
                Phase::Booting => Action::OpenSession,
                _ => Action::LoadLibrary,
            },
            Event::Loaded(ran) => match check_loaded(ran) {
                Ok(()) => Action::ReadExport(EXPORT_NAME.to_owned()),
                Err(err) => Action::Finish(Err(err)),
            },
            Event::Found(k) => if self.phase == Phase::Exporting {
                match check_export(k) {
                    Ok(()) => Action::ReadEntry(ENTRY_NAME.to_owned()),
                    Err(err) => Action::Finish(Err(err)),
                }
            } else {
                match check_entry(k) {
                    Ok(()) => Action::Invoke(self.input.clone(), self.opts.entries()),
                    Err(err) => Action::Finish(Err(err)),
                }
            },
            Event::Returned => Action::Stringify,
            Event::Threw(m) => Action::Finish(Err(Error::ExecError(m))),
            Event::Text(t) => Action::Finish(take_text(t)),
        };
        self.phase = match a {
            Action::Finish(_) => Phase::Finished,
            _ => match self.phase {
                Phase::Fresh => Phase::Booting,
                Phase::Booting => Phase::Opening,
                Phase::Opening => Phase::Loading,
                Phase::Loading => Phase::Exporting,
                Phase::Exporting => Phase::Resolving,
                Phase::Resolving => Phase::Calling,
                Phase::Calling => Phase::Converting,
                _ => Phase::Finished,
            },
        };
        a
    }
}

} // verus!
