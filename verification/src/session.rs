//! Taking the terminal over and handing it back, as a machine.
//!
//! A session switches the terminal to raw input, to the alternate screen and
//! to mouse capture, runs its body, and then undoes every switch it made,
//! whatever happened in between. The machine decides what is done next; the
//! owner of the terminal does it and reports how it went.

use vstd::prelude::*;

verus! {

/// What is switched on in the terminal. A terminal as the session found it
/// has all four off.
#[derive(Clone, Copy, Debug, PartialEq, Eq)]
pub struct TerminalMode {
    /// Keys arrive unprocessed, without echo or line editing.
    pub raw: bool,
    /// The alternate screen buffer is shown.
    pub alternate_screen: bool,
    /// Mouse events are reported.
    pub mouse_capture: bool,
    /// The cursor is not shown.
    pub cursor_hidden: bool,
}

/// The steps that take the terminal over, in the order in which they are made.
#[derive(Clone, Copy, Debug, PartialEq, Eq)]
pub enum SetupStep {
    RawMode,
    AlternateScreen,
    MouseCapture,
}

/// What the session asks for next.
#[derive(Clone, Copy, Debug, PartialEq, Eq)]
pub enum SessionAction {
    EnableRawMode,
    EnterAlternateScreen,
    EnableMouseCapture,
    /// Run the body to its end. It may draw, and drawing hides the cursor.
    RunBody,
    DisableRawMode,
    LeaveAlternateScreen,
    DisableMouseCapture,
    ShowCursor,
    /// Nothing more: the session is over and its result can be taken.
    Finish,
}

/// Why a session failed.
#[derive(Debug, PartialEq, Eq)]
pub enum SessionError<E> {
    /// The terminal could not be taken over: a setup step failed.
    TerminalInit(E),
    /// The body failed while drawing or reading.
    Io(E),
}

/// How the program ends once the session is over.
#[derive(Debug, PartialEq, Eq)]
pub enum Exit<E> {
    /// With success, and nothing to say.
    Clean,
    /// With success, after this error has been printed to standard output:
    /// the terminal was taken over and handed back, and the body failed.
    Printed(E),
    /// With failure and this error: the terminal could not be taken over.
    Failed(E),
}

/// How the last action went.
#[derive(Debug, PartialEq, Eq)]
pub enum SessionOutcome<T, E> {
    /// The setup or restoration step was made.
    Done,
    /// The setup or restoration step failed.
    Failed(E),
    /// The body ran and returned this.
    Returned(Result<T, E>),
}

/// The session: taking the terminal over, running the body, or handing the
/// terminal back with the result in hand. It is over when nothing is owed
/// to the terminal any more.
#[derive(Debug, PartialEq, Eq)]
pub enum Session<T, E> {
    /// This setup step is due; the steps before it have been made.
    Entering(SetupStep),
    /// The body is due or running.
    Running,
    /// The switches in `owed` are still to be undone, then `result` is
    /// handed out.
    Leaving { owed: TerminalMode, result: Result<T, SessionError<E>> },
}

impl TerminalMode {
    /// The terminal as the session found it.
    pub open spec fn cooked() -> TerminalMode {
        TerminalMode { raw: false, alternate_screen: false, mouse_capture: false, cursor_hidden: false }
    }

    /// Everything switched on: raw input, alternate screen, mouse capture,
    /// and the cursor hidden.
    pub open spec fn all() -> TerminalMode {
        TerminalMode { raw: true, alternate_screen: true, mouse_capture: true, cursor_hidden: true }
    }

    /// The action that undoes the first switch of `self` that is on, in the
    /// order raw input, alternate screen, mouse capture, cursor; `Finish` if
    /// none is on.
    pub open spec fn first_restore(self) -> SessionAction {
        if self.raw {
            SessionAction::DisableRawMode
        } else if self.alternate_screen {
            SessionAction::LeaveAlternateScreen
        } else if self.mouse_capture {
            SessionAction::DisableMouseCapture
        } else if self.cursor_hidden {
            SessionAction::ShowCursor
        } else {
            SessionAction::Finish
        }
    }

    /// `self` with the switch that `action` turns on set, or the switch that
    /// it undoes cleared. Running the body counts as hiding the cursor.
    pub open spec fn switched(self, action: SessionAction) -> TerminalMode {
        match action {
            SessionAction::EnableRawMode => TerminalMode { raw: true, ..self },
            SessionAction::EnterAlternateScreen => TerminalMode { alternate_screen: true, ..self },
            SessionAction::EnableMouseCapture => TerminalMode { mouse_capture: true, ..self },
            SessionAction::RunBody => TerminalMode { cursor_hidden: true, ..self },
            SessionAction::DisableRawMode => TerminalMode { raw: false, ..self },
            SessionAction::LeaveAlternateScreen => TerminalMode { alternate_screen: false, ..self },
            SessionAction::DisableMouseCapture => TerminalMode { mouse_capture: false, ..self },
            SessionAction::ShowCursor => TerminalMode { cursor_hidden: false, ..self },
            SessionAction::Finish => self,
        }
    }

    /// The switches that are on in `self` or in `other`.
    pub open spec fn or(self, other: TerminalMode) -> TerminalMode {
        TerminalMode {
            raw: self.raw || other.raw,
            alternate_screen: self.alternate_screen || other.alternate_screen,
            mouse_capture: self.mouse_capture || other.mouse_capture,
            cursor_hidden: self.cursor_hidden || other.cursor_hidden,
        }
    }

    /// Whether no switch is on in both `self` and `other`.
    pub open spec fn apart_from(self, other: TerminalMode) -> bool {
        &&& !(self.raw && other.raw)
        &&& !(self.alternate_screen && other.alternate_screen)
        &&& !(self.mouse_capture && other.mouse_capture)
        &&& !(self.cursor_hidden && other.cursor_hidden)
    }

    /// `self` with its first switch that is on cleared.
    pub open spec fn rest(self) -> TerminalMode {
        self.switched(self.first_restore())
    }

    /// The action that undoes the first switch that is on.
    pub fn next_restore(&self) -> (a: SessionAction)
        ensures
            a == self.first_restore(),
    {
        if self.raw {
            SessionAction::DisableRawMode
        } else if self.alternate_screen {
            SessionAction::LeaveAlternateScreen
        } else if self.mouse_capture {
            SessionAction::DisableMouseCapture
        } else if self.cursor_hidden {
            SessionAction::ShowCursor
        } else {
            SessionAction::Finish
        }
    }

    /// The mode with its first switch that is on cleared.
    pub fn without_next(&self) -> (m: TerminalMode)
        ensures
            m == self.rest(),
    {
        if self.raw {
            TerminalMode { raw: false, ..*self }
        } else if self.alternate_screen {
            TerminalMode { alternate_screen: false, ..*self }
        } else if self.mouse_capture {
            TerminalMode { mouse_capture: false, ..*self }
        } else {
            TerminalMode { cursor_hidden: false, ..*self }
        }
    }

    /// Whether nothing is switched on.
    pub fn is_cooked(&self) -> (b: bool)
        ensures
            b == (*self == TerminalMode::cooked()),
    {
        !self.raw && !self.alternate_screen && !self.mouse_capture && !self.cursor_hidden
    }
}

impl SessionAction {
    /// The one switch that a restoration step undoes; nothing for any other
    /// action.
    pub open spec fn undoes(self) -> TerminalMode {
        match self {
            SessionAction::DisableRawMode => TerminalMode { raw: true, ..TerminalMode::cooked() },
            SessionAction::LeaveAlternateScreen => TerminalMode {
                alternate_screen: true,
                ..TerminalMode::cooked()
            },
            SessionAction::DisableMouseCapture => TerminalMode {
                mouse_capture: true,
                ..TerminalMode::cooked()
            },
            SessionAction::ShowCursor => TerminalMode { cursor_hidden: true, ..TerminalMode::cooked() },
            _ => TerminalMode::cooked(),
        }
    }
}

impl SetupStep {
    /// The action that makes this step.
    pub open spec fn spec_action(self) -> SessionAction {
        match self {
            SetupStep::RawMode => SessionAction::EnableRawMode,
            SetupStep::AlternateScreen => SessionAction::EnterAlternateScreen,
            SetupStep::MouseCapture => SessionAction::EnableMouseCapture,
        }
    }

    /// What is switched on when this step is due: the steps before it.
    pub open spec fn entered_before(self) -> TerminalMode {
        match self {
            SetupStep::RawMode => TerminalMode::cooked(),
            SetupStep::AlternateScreen => TerminalMode { raw: true, ..TerminalMode::cooked() },
            SetupStep::MouseCapture => TerminalMode {
                raw: true,
                alternate_screen: true,
                ..TerminalMode::cooked()
            },
        }
    }

    /// What is switched on when this step is due.
    pub fn entered(&self) -> (m: TerminalMode)
        ensures
            m == self.entered_before(),
    {
        let raw = match self {
            SetupStep::RawMode => false,
            _ => true,
        };
        let alternate_screen = match self {
            SetupStep::MouseCapture => true,
            _ => false,
        };
        TerminalMode { raw, alternate_screen, mouse_capture: false, cursor_hidden: false }
    }
}

impl<T, E> Session<T, E> {
    /// Whether the session is over.
    pub open spec fn finished(self) -> bool {
        self matches Session::Leaving { owed, .. } && owed == TerminalMode::cooked()
    }

    /// What the session asks for in this state.
    pub open spec fn spec_action(self) -> SessionAction {
        match self {
            Session::Entering(step) => step.spec_action(),
            Session::Running => SessionAction::RunBody,
            Session::Leaving { owed, .. } => owed.first_restore(),
        }
    }

    /// Whether `outcome` is an answer to what the session asks for.
    pub open spec fn answered_by(self, outcome: SessionOutcome<T, E>) -> bool {
        match self {
            Session::Running => outcome is Returned,
            _ => !self.finished() && !(outcome is Returned),
        }
    }

    /// The session after `outcome`.
    ///
    /// A setup step that was made is followed by the next one, the last by
    /// the body. A setup step that failed ends the session with
    /// `TerminalInit`, once the steps made before it are undone. When the
    /// body returns, everything is undone and its result is kept, an error
    /// as `Io`. Undoing goes on to the next switch whether or not the last
    /// could be undone. An outcome that is no answer to the pending action
    /// changes nothing.
    pub open spec fn step(self, outcome: SessionOutcome<T, E>) -> Self {
        match self {
            Session::Entering(step) => match outcome {
                SessionOutcome::Done => match step {
                    SetupStep::RawMode => Session::Entering(SetupStep::AlternateScreen),
                    SetupStep::AlternateScreen => Session::Entering(SetupStep::MouseCapture),
                    SetupStep::MouseCapture => Session::Running,
                },
                SessionOutcome::Failed(e) => Session::Leaving {
                    owed: step.entered_before(),
                    result: Err(SessionError::TerminalInit(e)),
                },
                SessionOutcome::Returned(_) => Session::Entering(step),
            },
            Session::Running => match outcome {
                SessionOutcome::Returned(Ok(value)) => Session::Leaving {
                    owed: TerminalMode::all(),
                    result: Ok(value),
                },
                SessionOutcome::Returned(Err(e)) => Session::Leaving {
                    owed: TerminalMode::all(),
                    result: Err(SessionError::Io(e)),
                },
                _ => Session::Running,
            },
            Session::Leaving { owed, result } => match outcome {
                SessionOutcome::Returned(_) => Session::Leaving { owed, result },
                _ => Session::Leaving { owed: owed.rest(), result },
            },
        }
    }

    /// The session after each outcome of `script` in turn, from the start.
    pub open spec fn run(script: Seq<SessionOutcome<T, E>>) -> Self
        decreases script.len(),
    {
        if script.len() == 0 {
            Session::Entering(SetupStep::RawMode)
        } else {
            Self::run(script.drop_last()).step(script.last())
        }
    }

    /// The terminal after the pending action of `self` was answered by
    /// `outcome`, if it was in `mode` before: a step that was made switched
    /// what it switches, a step that failed switched nothing, and a body that
    /// ran has hidden the cursor.
    pub open spec fn terminal_step(self, mode: TerminalMode, outcome: SessionOutcome<T, E>) -> TerminalMode {
        if self.answered_by(outcome) && !(outcome is Failed) {
            mode.switched(self.spec_action())
        } else {
            mode
        }
    }

    /// The terminal after a session that found it with everything off was
    /// answered by each outcome of `script` in turn.
    pub open spec fn terminal_after(script: Seq<SessionOutcome<T, E>>) -> TerminalMode
        decreases script.len(),
    {
        if script.len() == 0 {
            TerminalMode::cooked()
        } else {
            Self::run(script.drop_last()).terminal_step(
                Self::terminal_after(script.drop_last()),
                script.last(),
            )
        }
    }

    /// The switches that the session tried to undo along `script` and could
    /// not: the restoration step for them failed.
    pub open spec fn refused_after(script: Seq<SessionOutcome<T, E>>) -> TerminalMode
        decreases script.len(),
    {
        if script.len() == 0 {
            TerminalMode::cooked()
        } else {
            let before = Self::run(script.drop_last());
            let refused = Self::refused_after(script.drop_last());
            if before is Leaving && before.answered_by(script.last()) && script.last() is Failed {
                refused.or(before.spec_action().undoes())
            } else {
                refused
            }
        }
    }

    /// The actions that were answered along `script`, in the order in which
    /// they were asked for.
    pub open spec fn performed(script: Seq<SessionOutcome<T, E>>) -> Seq<SessionAction>
        decreases script.len(),
    {
        if script.len() == 0 {
            Seq::empty()
        } else {
            let before = Self::run(script.drop_last());
            let earlier = Self::performed(script.drop_last());
            if before.answered_by(script.last()) {
                earlier.push(before.spec_action())
            } else {
                earlier
            }
        }
    }

    /// What holds between a session and the actions performed for it so
    /// far: they are the start of one of the four courses of
    /// `lemma_session_takes_one_course`, as far as the state tells.
    pub open spec fn on_course(self, done: Seq<SessionAction>) -> bool {
        let init_failed = self matches Session::Leaving { result: Err(SessionError::TerminalInit(_)), .. };
        let raw = TerminalMode { raw: true, ..TerminalMode::cooked() };
        let cursor = TerminalMode { cursor_hidden: true, ..TerminalMode::cooked() };
        match self {
            Session::Entering(SetupStep::RawMode) => done =~= seq![],
            Session::Entering(SetupStep::AlternateScreen) => done =~= seq![
                SessionAction::EnableRawMode,
            ],
            Session::Entering(SetupStep::MouseCapture) => done =~= seq![
                SessionAction::EnableRawMode,
                SessionAction::EnterAlternateScreen,
            ],
            Session::Running => done =~= seq![
                SessionAction::EnableRawMode,
                SessionAction::EnterAlternateScreen,
                SessionAction::EnableMouseCapture,
            ],
            Session::Leaving { owed, .. } => if init_failed {
                ||| owed == TerminalMode::cooked() && done =~= raw_mode_refused()
                ||| owed == raw && done =~= raw_mode_refused().push(SessionAction::EnterAlternateScreen)
                ||| owed == TerminalMode::cooked() && done =~= alternate_screen_refused()
                ||| owed == (TerminalMode { alternate_screen: true, ..raw }) && done
                    =~= mouse_capture_refused().take(3)
                ||| owed == (TerminalMode { alternate_screen: true, ..TerminalMode::cooked() })
                    && done =~= mouse_capture_refused().take(4)
                ||| owed == TerminalMode::cooked() && done =~= mouse_capture_refused()
            } else {
                ||| owed == TerminalMode::all() && done =~= whole_course().take(4)
                ||| owed == (TerminalMode { raw: false, ..TerminalMode::all() }) && done
                    =~= whole_course().take(5)
                ||| owed == (TerminalMode { mouse_capture: true, ..cursor }) && done
                    =~= whole_course().take(6)
                ||| owed == cursor && done =~= whole_course().take(7)
                ||| owed == TerminalMode::cooked() && done =~= whole_course()
            },
        }
    }

    /// What holds between a session, the terminal and the switches that
    /// could not be undone, all along: while the terminal is taken over it
    /// is exactly as far as the setup has come, and while it is handed back
    /// each switch is on exactly if it is still owed or was refused.
    pub open spec fn accounts_for(self, mode: TerminalMode, refused: TerminalMode) -> bool {
        match self {
            Session::Entering(step) => mode == step.entered_before() && refused
                == TerminalMode::cooked(),
            Session::Running => mode == (TerminalMode { cursor_hidden: false, ..TerminalMode::all() })
                && refused == TerminalMode::cooked(),
            Session::Leaving { owed, .. } => mode == owed.or(refused) && owed.apart_from(refused),
        }
    }

    /// A session that has not touched the terminal yet.
    pub fn start() -> (s: Self)
        ensures
            s == Session::<T, E>::Entering(SetupStep::RawMode),
            s == Self::run(Seq::empty()),
    {
        Session::Entering(SetupStep::RawMode)
    }

    /// What is to be done next.
    pub fn action(&self) -> (a: SessionAction)
        ensures
            a == self.spec_action(),
            a == SessionAction::Finish <==> self.finished(),
    {
        match self {
            Session::Entering(step) => match step {
                SetupStep::RawMode => SessionAction::EnableRawMode,
                SetupStep::AlternateScreen => SessionAction::EnterAlternateScreen,
                SetupStep::MouseCapture => SessionAction::EnableMouseCapture,
            },
            Session::Running => SessionAction::RunBody,
            Session::Leaving { owed, .. } => owed.next_restore(),
        }
    }

    /// Whether the session is over.
    pub fn is_finished(&self) -> (b: bool)
        ensures
            b == self.finished(),
    {
        match self {
            Session::Leaving { owed, .. } => owed.is_cooked(),
            _ => false,
        }
    }

    /// Moves the session on, given how its last action went.
    pub fn advance(self, outcome: SessionOutcome<T, E>) -> (s: Self)
        ensures
            s == self.step(outcome),
    {
        match self {
            Session::Entering(step) => match outcome {
                SessionOutcome::Done => match step {
                    SetupStep::RawMode => Session::Entering(SetupStep::AlternateScreen),
                    SetupStep::AlternateScreen => Session::Entering(SetupStep::MouseCapture),
                    SetupStep::MouseCapture => Session::Running,
                },
                SessionOutcome::Failed(e) => Session::Leaving {
                    owed: step.entered(),
                    result: Err(SessionError::TerminalInit(e)),
                },
                SessionOutcome::Returned(_) => Session::Entering(step),
            },
            Session::Running => match outcome {
                SessionOutcome::Returned(Ok(value)) => Session::Leaving {
                    owed: TerminalMode {
                        raw: true,
                        alternate_screen: true,
                        mouse_capture: true,
                        cursor_hidden: true,
                    },
                    result: Ok(value),
                },
                SessionOutcome::Returned(Err(e)) => Session::Leaving {
                    owed: TerminalMode {
                        raw: true,
                        alternate_screen: true,
                        mouse_capture: true,
                        cursor_hidden: true,
                    },
                    result: Err(SessionError::Io(e)),
                },
                _ => Session::Running,
            },
            Session::Leaving { owed, result } => match outcome {
                SessionOutcome::Returned(_) => Session::Leaving { owed, result },
                _ => Session::Leaving { owed: owed.without_next(), result },
            },
        }
    }

    /// The result of the session, once it is over.
    pub fn finish(self) -> (r: Option<Result<T, SessionError<E>>>)
        ensures
            r == match self {
                Session::Leaving { owed, result } if owed == TerminalMode::cooked() => Some(result),
                _ => None,
            },
            r is Some <==> self.finished(),
    {
        match self {
            Session::Leaving { owed, result } => if owed.is_cooked() {
                Some(result)
            } else {
                None
            },
            _ => None,
        }
    }
}

/// Decides how the program ends, given the result of its session: a failure
/// of the body is printed and does not fail the program; a terminal that
/// could not be taken over does.
pub fn exit_for<T, E>(result: Result<T, SessionError<E>>) -> (exit: Exit<E>)
    ensures
        exit == match result {
            Ok(_) => Exit::<E>::Clean,
            Err(SessionError::Io(e)) => Exit::Printed(e),
            Err(SessionError::TerminalInit(e)) => Exit::Failed(e),
        },
{
    match result {
        Ok(_) => Exit::Clean,
        Err(SessionError::Io(e)) => Exit::Printed(e),
        Err(SessionError::TerminalInit(e)) => Exit::Failed(e),
    }
}

/// What is done when raw mode cannot be entered: nothing is undone.
pub open spec fn raw_mode_refused() -> Seq<SessionAction> {
    seq![SessionAction::EnableRawMode]
}

/// What is done when the alternate screen cannot be entered: raw mode is
/// undone.
pub open spec fn alternate_screen_refused() -> Seq<SessionAction> {
    seq![
        SessionAction::EnableRawMode,
        SessionAction::EnterAlternateScreen,
        SessionAction::DisableRawMode,
    ]
}

/// What is done when the mouse cannot be captured: raw mode and the
/// alternate screen are undone.
pub open spec fn mouse_capture_refused() -> Seq<SessionAction> {
    seq![
        SessionAction::EnableRawMode,
        SessionAction::EnterAlternateScreen,
        SessionAction::EnableMouseCapture,
        SessionAction::DisableRawMode,
        SessionAction::LeaveAlternateScreen,
    ]
}

/// What is done when the terminal is taken over: the body runs, and
/// everything is undone.
pub open spec fn whole_course() -> Seq<SessionAction> {
    seq![
        SessionAction::EnableRawMode,
        SessionAction::EnterAlternateScreen,
        SessionAction::EnableMouseCapture,
        SessionAction::RunBody,
        SessionAction::DisableRawMode,
        SessionAction::LeaveAlternateScreen,
        SessionAction::DisableMouseCapture,
        SessionAction::ShowCursor,
    ]
}

/// At every point of every session, what has been done so far is the start
/// of one of the four courses: see `on_course`.
pub proof fn lemma_session_stays_on_course<T, E>(script: Seq<SessionOutcome<T, E>>)
    ensures
        Session::run(script).on_course(Session::<T, E>::performed(script)),
    decreases script.len(),
{
    if script.len() > 0 {
        lemma_session_stays_on_course(script.drop_last());
    }
}

/// A session that is over has taken exactly one of four courses, whatever
/// the outcomes were: each setup step is made once and in order, the body
/// runs once and only when all three were made, and each step that was made
/// is undone once, in order, the cursor being shown again only after the
/// body. The session fails with `TerminalInit` exactly when the body did
/// not run.
pub proof fn lemma_session_takes_one_course<T, E>(script: Seq<SessionOutcome<T, E>>)
    requires
        Session::run(script).finished(),
    ensures
        ({
            let done = Session::<T, E>::performed(script);
            let init_failed = Session::run(script) matches Session::Leaving {
                result: Err(SessionError::TerminalInit(_)),
                ..
            };
            if init_failed {
                ||| done == raw_mode_refused()
                ||| done == alternate_screen_refused()
                ||| done == mouse_capture_refused()
            } else {
                done == whole_course()
            }
        }),
{
    lemma_session_stays_on_course(script);
}

/// At every point of every session, the terminal is accounted for: see
/// `accounts_for`.
pub proof fn lemma_terminal_accounted_for<T, E>(script: Seq<SessionOutcome<T, E>>)
    ensures
        Session::run(script).accounts_for(
            Session::<T, E>::terminal_after(script),
            Session::<T, E>::refused_after(script),
        ),
    decreases script.len(),
{
    if script.len() > 0 {
        lemma_terminal_accounted_for(script.drop_last());
    }
}

/// However a session goes (the body returns, the body fails, a setup step
/// fails part of the way), once it is over the terminal is as the session
/// found it, but for the switches whose restoration the terminal itself
/// refused. If no restoration step failed, nothing at all is left on.
pub proof fn lemma_session_restores_terminal<T, E>(script: Seq<SessionOutcome<T, E>>)
    requires
        Session::run(script).finished(),
    ensures
        Session::<T, E>::terminal_after(script) == Session::<T, E>::refused_after(script),
        Session::<T, E>::refused_after(script) == TerminalMode::cooked() ==> Session::<
            T,
            E,
        >::terminal_after(script) == TerminalMode::cooked(),
{
    lemma_terminal_accounted_for(script);
}

/// Handing the terminal back is best effort, step by step: whether a
/// restoration step fails or not, the session goes on to the same next step
/// and keeps the same result.
pub proof fn lemma_restoration_goes_on<T, E>(session: Session<T, E>, e: E)
    requires
        session is Leaving,
    ensures
        session.step(SessionOutcome::Failed(e)) == session.step(SessionOutcome::Done),
        session.step(SessionOutcome::Done) matches Session::Leaving { result, .. }
            && result == session->result,
{
}

/// A session that is over stays over, with the same result.
pub proof fn lemma_finished_is_absorbing<T, E>(session: Session<T, E>, outcome: SessionOutcome<T, E>)
    requires
        session.finished(),
    ensures
        session.step(outcome) == session,
{
}

} // verus!
