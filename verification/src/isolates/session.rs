//! A session: one isolate, for as long as a Python `async with` block lasts.
use vstd::prelude::*;

use crate::channels::isolate_channel_of;
use crate::channels::isolate_sends;
use crate::channels::offered;
use crate::channels::python_channel_of;
use crate::channels::python_sends;
use crate::error::fails_with;
use crate::error::PyError;
use crate::error::PyErrorView;
use crate::isolates::isolate::same_isolate;
use crate::isolates::isolate::PyIsolate;
use crate::transmit::IsolateRequest;
use crate::transmit::PythonRequest;

verus! {

/// A session. The isolate is known by the number of its state.
#[derive(Debug, PartialEq, Eq, Structural)]
pub struct PyIsolateSession {
    /// The isolate, between entering and leaving.
    pub isolate: Option<u64>,
    /// Whether an isolate was created, now or before.
    pub dead: bool,
}

/// What entering a session comes to.
#[derive(Debug)]
pub enum EnterStep {
    /// The isolate is there already.
    Entered(u64),
    /// An isolate has to be created first, with `no_python` as given here.
    Create { no_python: bool },
    /// The session cannot be entered any more.
    Failed(PyError),
}

/// The error of a session that is used again.
pub open spec fn session_was_reused() -> PyErrorView {
    PyErrorView::Runtime("could not find isolate. did you reuse the session?"@)
}

impl PyIsolateSession {
    /// An isolate is there only if one was created.
    pub open spec fn well_formed(self) -> bool {
        self.isolate is Some ==> self.dead
    }

    /// A session that was not entered yet.
    pub fn new() -> (session: PyIsolateSession)
        ensures
            session == (PyIsolateSession { isolate: None, dead: false }),
            session.well_formed(),
    {
        PyIsolateSession { isolate: None, dead: false }
    }

    /// Enters the session. An isolate that is created for it can run Python functions.
    pub fn __aenter__(&self) -> (step: EnterStep)
        ensures
            match self.isolate {
                Some(isolate) => step == EnterStep::Entered(isolate),
                None => if self.dead {
                    step matches EnterStep::Failed(error) && error@ == session_was_reused()
                } else {
                    step == (EnterStep::Create { no_python: false })
                },
            },
            step !is Create <==> session_uses(*self, SessionUse::Enter, *self),
    {
        match self.isolate {
            Some(isolate) => EnterStep::Entered(isolate),
            None => if !self.dead {
                EnterStep::Create { no_python: false }
            } else {
                EnterStep::Failed(
                    PyError::runtime("could not find isolate. did you reuse the session?"),
                )
            },
        }
    }

    /// Goes on entering the session with the isolate that was created for it. If there is
    /// none, the session can be entered later.
    pub fn created(&mut self, created: Result<u64, PyError>) -> (result: Result<u64, PyError>)
        requires
            old(self).isolate is None,
            !old(self).dead,
        ensures
            final(self).well_formed(),
            result == created,
            session_uses(*old(self), SessionUse::Create(isolate_of(created)), *final(self)),
    {
        match created {
            Ok(isolate) => {
                self.isolate = Some(isolate);
                self.dead = true;
                Ok(isolate)
            },
            Err(error) => Err(error),
        }
    }

    /// Leaves the session, and fails if there is no isolate in it. The isolate that was in it
    /// is to be closed, as [`PyIsolateSession::leave`] does.
    pub fn __aexit__(&mut self) -> (result: Result<u64, PyError>)
        ensures
            session_uses(*old(self), SessionUse::Exit, *final(self)),
            final(self).well_formed(),
            match old(self).isolate {
                Some(isolate) => result == Ok::<u64, PyError>(isolate),
                None => fails_with(result, session_was_reused()),
            },
    {
        match self.isolate.take() {
            Some(isolate) => Ok(isolate),
            None => Err(PyError::runtime("could not find isolate. did you reuse the session?")),
        }
    }

    /// Leaves the session whose isolate is `isolate`, and closes that.
    pub fn leave(&mut self, isolate: &mut PyIsolate) -> (result: Result<(), PyError>)
        requires
            old(self).isolate == Some(old(isolate).state),
        ensures
            result is Ok,
            session_uses(*old(self), SessionUse::Exit, *final(self)),
            final(self).isolate is None,
            final(self).dead == old(self).dead,
            same_isolate(*old(isolate), *final(isolate)),
            offered(
                python_sends(old(isolate).python_tx),
                python_sends(final(isolate).python_tx),
                PythonRequest::Close,
            ),
            offered(
                isolate_sends(old(isolate).isolate_tx),
                isolate_sends(final(isolate).isolate_tx),
                IsolateRequest::Close,
            ),
    {
        match self.__aexit__() {
            Ok(_) => {
                isolate.close();
                Ok(())
            },
            Err(error) => Err(error),
        }
    }
}

/// The isolate that was created, if it was.
pub open spec fn isolate_of(created: Result<u64, PyError>) -> Option<u64> {
    match created {
        Ok(isolate) => Some(isolate),
        Err(_) => None,
    }
}

/// What can be done to a session.
pub enum SessionUse {
    /// It is entered while its isolate is there, or when it cannot be entered any more.
    Enter,
    /// It is entered, and an isolate is created for it, or cannot be.
    Create(Option<u64>),
    /// It is left.
    Exit,
}

/// `after` is what a use makes of the session `before`.
pub open spec fn session_uses(
    before: PyIsolateSession,
    used: SessionUse,
    after: PyIsolateSession,
) -> bool {
    match used {
        SessionUse::Enter => (before.isolate is Some || before.dead) && after == before,
        SessionUse::Create(created) => {
            &&& before.isolate is None
            &&& !before.dead
            &&& after == match created {
                Some(isolate) => PyIsolateSession { isolate: Some(isolate), dead: true },
                None => before,
            }
        },
        SessionUse::Exit => after == (PyIsolateSession { isolate: None, dead: before.dead }),
    }
}

/// The sessions that come about when a new one is used again and again.
pub open spec fn session_history(
    sessions: Seq<PyIsolateSession>,
    uses: Seq<SessionUse>,
) -> bool {
    &&& sessions.len() == uses.len() + 1
    &&& sessions[0] == (PyIsolateSession { isolate: None, dead: false })
    &&& forall|i: int|
        #![trigger uses[i]]
        0 <= i < uses.len() ==> session_uses(sessions[i], uses[i], sessions[i + 1])
}

/// Whether a use created an isolate.
pub open spec fn creates_isolate(used: SessionUse) -> bool {
    used matches SessionUse::Create(Some(_))
}

/// A session stays well formed, and it is dead exactly when some use created an isolate.
pub proof fn law_session_is_dead_once_created(
    sessions: Seq<PyIsolateSession>,
    uses: Seq<SessionUse>,
    n: int,
)
    requires
        session_history(sessions, uses),
        0 <= n <= uses.len(),
    ensures
        sessions[n].well_formed(),
        sessions[n].dead <==> exists|i: int| 0 <= i < n && creates_isolate(#[trigger] uses[i]),
    decreases n,
{
    if n > 0 {
        law_session_is_dead_once_created(sessions, uses, n - 1);
        assert(session_uses(sessions[n - 1], uses[n - 1], sessions[n - 1 + 1]));
        if sessions[n - 1].dead {
            let i = choose|i: int| 0 <= i < n - 1 && creates_isolate(#[trigger] uses[i]);
            assert(creates_isolate(uses[i]));
        }
    }
}

/// However a session is used, at most one isolate is created for it.
pub proof fn law_session_creates_one_isolate(
    sessions: Seq<PyIsolateSession>,
    uses: Seq<SessionUse>,
    first: int,
    second: int,
)
    requires
        session_history(sessions, uses),
        0 <= first < uses.len(),
        0 <= second < uses.len(),
        creates_isolate(uses[first]),
        creates_isolate(uses[second]),
    ensures
        first == second,
{
    if first < second {
        law_session_is_dead_once_created(sessions, uses, second);
        assert(session_uses(sessions[second], uses[second], sessions[second + 1]));
    }
    if second < first {
        law_session_is_dead_once_created(sessions, uses, first);
        assert(session_uses(sessions[first], uses[first], sessions[first + 1]));
    }
}

/// A session that was left after an isolate was created for it holds no isolate ever after, so
/// that entering it and leaving it fail.
pub proof fn law_left_session_stays_left(
    sessions: Seq<PyIsolateSession>,
    uses: Seq<SessionUse>,
    left: int,
    later: int,
)
    requires
        session_history(sessions, uses),
        0 <= left < later <= uses.len(),
        uses[left] is Exit,
        sessions[left].dead,
    ensures
        sessions[later] == (PyIsolateSession { isolate: None, dead: true }),
    decreases later,
{
    if later == left + 1 {
        assert(session_uses(sessions[left], uses[left], sessions[left + 1]));
    } else {
        law_left_session_stays_left(sessions, uses, left, later - 1);
        assert(session_uses(sessions[later - 1], uses[later - 1], sessions[later - 1 + 1]));
    }
}

/// A new session, and one whose creation failed, has to have an isolate created, which is to run
/// Python functions.
pub proof fn law_fresh_session_creates_an_isolate(
    session: &mut PyIsolateSession,
    failure: PyError,
    failed: Result<u64, PyError>,
    first: EnterStep,
    second: EnterStep,
)
    requires
        call_ensures(PyIsolateSession::new, (), *old(session)),
        call_ensures(PyIsolateSession::__aenter__, (old(session),), first),
        call_ensures(PyIsolateSession::created, (session, Err(failure)), failed),
        call_ensures(PyIsolateSession::__aenter__, (final(session),), second),
    ensures
        first matches EnterStep::Create { no_python } && !no_python,
        failed matches Err(error) && error == failure,
        second matches EnterStep::Create { no_python } && !no_python,
{
}

/// A session for which an isolate was created gives that isolate, whenever it is entered and when
/// it is left. Once it was left it can be neither entered nor left again.
pub proof fn law_session_gives_its_isolate_until_left(
    session: &mut PyIsolateSession,
    isolate: u64,
    given: Result<u64, PyError>,
    entered: EnterStep,
    leaving: &mut PyIsolateSession,
    left: Result<u64, PyError>,
    again: EnterStep,
    returning: &mut PyIsolateSession,
    second: Result<u64, PyError>,
)
    requires
        call_ensures(PyIsolateSession::created, (session, Ok(isolate)), given),
        call_ensures(PyIsolateSession::__aenter__, (final(session),), entered),
        *old(leaving) == *final(session),
        call_ensures(PyIsolateSession::__aexit__, (leaving,), left),
        call_ensures(PyIsolateSession::__aenter__, (final(leaving),), again),
        *old(returning) == *final(leaving),
        call_ensures(PyIsolateSession::__aexit__, (returning,), second),
    ensures
        given == Ok::<u64, PyError>(isolate),
        entered matches EnterStep::Entered(same) && same == isolate,
        left == Ok::<u64, PyError>(isolate),
        again matches EnterStep::Failed(PyError::Runtime(message)) && message@
            == "could not find isolate. did you reuse the session?"@,
        second matches Err(PyError::Runtime(message)) && message@
            == "could not find isolate. did you reuse the session?"@,
{
}

/// A session that was not entered cannot be left, and can still be entered afterwards.
pub proof fn law_fresh_session_cannot_be_left(
    session: &mut PyIsolateSession,
    left: Result<u64, PyError>,
    entered: EnterStep,
)
    requires
        call_ensures(PyIsolateSession::new, (), *old(session)),
        call_ensures(PyIsolateSession::__aexit__, (session,), left),
        call_ensures(PyIsolateSession::__aenter__, (final(session),), entered),
    ensures
        left matches Err(PyError::Runtime(message)) && message@
            == "could not find isolate. did you reuse the session?"@,
        entered is Create,
{
}

/// A session that has to have an isolate created can be told of any outcome of that, and one
/// that has an isolate can be left with it.
pub proof fn law_session_takes_what_was_created(
    session: &mut PyIsolateSession,
    entered: EnterStep,
    created: Result<u64, PyError>,
    isolate: &mut PyIsolate,
)
    requires
        call_ensures(PyIsolateSession::__aenter__, (old(session),), entered),
    ensures
        entered is Create ==> call_requires(PyIsolateSession::created, (session, created)),
        (entered matches EnterStep::Entered(number) && number == old(isolate).state)
            ==> call_requires(PyIsolateSession::leave, (session, isolate)),
{
}

/// Leaving a session with its isolate succeeds and closes the isolate: each of its two sides is
/// handed the request to close, once, on its own channel. The session cannot be left again.
pub proof fn law_left_session_closes_its_isolate(
    session: &mut PyIsolateSession,
    isolate: &mut PyIsolate,
    result: Result<(), PyError>,
    returning: &mut PyIsolateSession,
    second: Result<u64, PyError>,
)
    requires
        old(session).isolate == Some(old(isolate).state),
        call_ensures(PyIsolateSession::leave, (session, isolate), result),
        *old(returning) == *final(session),
        call_ensures(PyIsolateSession::__aexit__, (returning,), second),
    ensures
        result is Ok,
        second is Err,
        isolate_sends(final(isolate).isolate_tx).len() == isolate_sends(
            old(isolate).isolate_tx,
        ).len() + 1,
        isolate_sends(final(isolate).isolate_tx).last().0 is Close,
        python_sends(final(isolate).python_tx).len() == python_sends(old(isolate).python_tx).len()
            + 1,
        python_sends(final(isolate).python_tx).last().0 is Close,
        isolate_channel_of(final(isolate).isolate_tx) == isolate_channel_of(
            old(isolate).isolate_tx,
        ),
        python_channel_of(final(isolate).python_tx) == python_channel_of(old(isolate).python_tx),
        final(isolate).state == old(isolate).state,
{
}

} // verus!
