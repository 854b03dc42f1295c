//! Silencing the engine's own error printing for the length of a scope.
//!
//! The engine keeps one error handler per thread and calls it whenever a
//! call fails. A scope saves the handler it finds, has the silent one
//! installed, and has the saved one installed again when it closes, however
//! the work inside ended.

use vstd::prelude::*;

verus! {

/// An error handler of the engine, as far as this layer needs to tell one
/// from another.
#[derive(Clone, Copy, Debug, PartialEq, Eq, Structural)]
pub enum Handler {
    /// No handler: a failing call prints nothing.
    Silent,
    /// A handler routine and the data it is called with, both as the engine
    /// hands them out.
    Installed { routine: u64, data: u64 },
}

/// An open scope of silence. It remembers the handler to put back.
#[derive(Debug)]
pub struct SilenceScope {
    saved: Handler,
}

impl View for SilenceScope {
    type V = Handler;

    closed spec fn view(&self) -> Handler {
        self.saved
    }
}

/// What opening a scope comes to when `installed` is the handler in place:
/// the handler that the scope saves, and the handler to install for its
/// length, which is always the silent one.
pub open spec fn scope_opened(installed: Handler) -> (Handler, Handler) {
    (installed, Handler::Silent)
}

/// The handler to install when a scope that saved `saved` is closed.
pub open spec fn scope_closed(saved: Handler) -> Handler {
    saved
}

/// Opens a scope of silence. `installed` is the handler found in place; the
/// second part of the result is the handler to install now, which is always
/// the silent one.
pub fn silence_errors(installed: Handler) -> (opened: (SilenceScope, Handler))
    ensures
        (opened.0@, opened.1) == scope_opened(installed),
{
    (SilenceScope { saved: installed }, Handler::Silent)
}

impl SilenceScope {
    /// The handler that was in place when the scope was opened.
    pub fn saved(&self) -> (saved: Handler)
        ensures
            saved == self@,
    {
        self.saved
    }

    /// Closes the scope and gives the handler to install now: the one that
    /// was in place when the scope was opened. It asks nothing about how the
    /// work inside ended, so the answer is the same after success, failure
    /// and unwinding.
    pub fn close(self) -> (restore: Handler)
        ensures
            restore == scope_closed(self@),
    {
        self.saved
    }
}

/// What happens to scopes: one is opened, or the innermost is closed.
pub enum ScopeEvent {
    Open,
    Close,
}

/// The engine's handler slot of one thread together with the scopes that are
/// open on it, outermost first, each given by the handler it saved.
pub struct Silencing {
    pub current: Handler,
    pub saved: Seq<Handler>,
}

impl Silencing {
    /// No scope open, and `installed` in place.
    pub open spec fn start(installed: Handler) -> Silencing {
        Silencing { current: installed, saved: Seq::empty() }
    }

    /// The slot and the scopes after `event`, with the handler installed
    /// that `silence_errors` or `close` names. Closing with no scope open
    /// changes nothing.
    pub open spec fn step(self, event: ScopeEvent) -> Silencing {
        match event {
            ScopeEvent::Open => Silencing {
                current: scope_opened(self.current).1,
                saved: self.saved.push(scope_opened(self.current).0),
            },
            ScopeEvent::Close => if self.saved.len() == 0 {
                self
            } else {
                Silencing {
                    current: scope_closed(self.saved.last()),
                    saved: self.saved.drop_last(),
                }
            },
        }
    }

    /// The slot and the scopes after the first `count` of `events`.
    pub open spec fn after(self, events: Seq<ScopeEvent>, count: nat) -> Silencing
        decreases count,
    {
        if count == 0 || count > events.len() {
            self
        } else {
            self.after(events, (count - 1) as nat).step(events[count - 1])
        }
    }

    /// The outermost scope saved `installed`, every scope inside it saved
    /// the silent handler, and the silent handler is in place.
    spec fn nested_over(self, installed: Handler) -> bool {
        if self.saved.len() == 0 {
            self.current == installed
        } else {
            &&& self.current == Handler::Silent
            &&& self.saved[0] == installed
            &&& forall|i: int| 1 <= i < self.saved.len() ==> self.saved[i] == Handler::Silent
        }
    }
}

proof fn lemma_scopes_nested(installed: Handler, events: Seq<ScopeEvent>, count: nat)
    requires
        count <= events.len(),
    ensures
        Silencing::start(installed).after(events, count).nested_over(installed),
    decreases count,
{
    if count > 0 {
        lemma_scopes_nested(installed, events, (count - 1) as nat);
    }
}

/// Whatever scopes are opened and closed, one inside the other or one after
/// the other: while any scope is open the silent handler is in place, and
/// whenever none is open the handler is the one that was there before the
/// first scope was opened.
pub proof fn lemma_scopes_silence_and_restore(
    installed: Handler,
    events: Seq<ScopeEvent>,
    count: nat,
)
    requires
        count <= events.len(),
    ensures
        ({
            let now = Silencing::start(installed).after(events, count);
            &&& now.saved.len() > 0 ==> now.current == Handler::Silent
            &&& now.saved.len() == 0 ==> now.current == installed
        }),
{
    lemma_scopes_nested(installed, events, count);
}

/// One scope, from the handler slot's side: opening it puts the silent
/// handler in place, and closing it puts back what was there.
pub proof fn lemma_scope_round_trip(installed: Handler)
    ensures
        Silencing::start(installed).step(ScopeEvent::Open).current == Handler::Silent,
        Silencing::start(installed).step(ScopeEvent::Open).step(ScopeEvent::Close)
            == Silencing::start(installed),
{
    let opened = Silencing::start(installed).step(ScopeEvent::Open);
    assert(opened.saved.drop_last() =~= Seq::<Handler>::empty());
}

} // verus!
