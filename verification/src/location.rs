//! What a location offers: asking whether a member exists at a path, and
//! listing the names of its children and attributes.

use vstd::prelude::*;
use crate::entity::Location;
use crate::error::{
    annotated, native_error, raw_outcome, text_outcome, Error, ErrorRecord, ErrorView, RecordView,
};
use crate::native::{Members, NativeCall, Traversal};
use crate::silence::{silence_errors, Handler, SilenceScope};

verus! {

/// The answer to an existence probe.
#[derive(Clone, Copy, Debug, PartialEq, Eq, Structural)]
pub enum Presence {
    Present,
    Absent,
}

/// A probe as a plain value: the handler to put back, and the path asked
/// about.
pub struct ProbeView {
    pub saved: Handler,
    pub path: Seq<char>,
}

/// An existence probe under way. The engine's error printing is silenced
/// while it lasts, since a probe that finds nothing is no failure to report.
#[derive(Debug)]
pub struct Probe {
    scope: SilenceScope,
    path: String,
}

impl View for Probe {
    type V = ProbeView;

    closed spec fn view(&self) -> ProbeView {
        ProbeView { saved: self.scope@, path: self.path@ }
    }
}

/// What a probe for `path` comes to, given the outcome of its guarded call.
/// A member that is not there is an answer, not an error. A call that
/// failed is an error: it keeps its record and names the path.
pub open spec fn probed(path: Seq<char>, outcome: Result<i64, RecordView>) -> Result<
    Presence,
    ErrorView,
> {
    match outcome {
        Ok(raw) => Ok(
            if raw > 0 {
                Presence::Present
            } else {
                Presence::Absent
            },
        ),
        Err(record) => Err(annotated(native_error(record), path)),
    }
}

/// The plain value of a probe's answer.
pub open spec fn presence_result(answer: Result<Presence, Error>) -> Result<Presence, ErrorView> {
    match answer {
        Ok(presence) => Ok(presence),
        Err(error) => Err(error@),
    }
}

impl Probe {
    /// Ends the probe. `outcome` is what the guarded call came to. The
    /// second part of the result is the handler to install now: the one
    /// that was in place before the probe, whatever the outcome.
    pub fn finish(self, outcome: Result<i64, ErrorRecord>) -> (done: (
        Result<Presence, Error>,
        Handler,
    ))
        ensures
            presence_result(done.0) == probed(self@.path, raw_outcome(outcome)),
            done.1 == self@.saved,
    {
        let restore = self.scope.close();
        let answer = match outcome {
            Ok(raw) => Ok(
                if raw > 0 {
                    Presence::Present
                } else {
                    Presence::Absent
                },
            ),
            Err(record) => Err(Error::native(record).with_context(self.path)),
        };
        (answer, restore)
    }

    /// Ends a probe whose guarded call did not return. The result is the
    /// handler to install now: the one that was in place before the probe.
    pub fn abandon(self) -> (restore: Handler)
        ensures
            restore == self@.saved,
    {
        self.scope.close()
    }
}

/// A listing as a plain value.
pub struct ListingView {
    pub location: i64,
    pub members: Members,
    pub order: Traversal,
    pub total: nat,
    pub names: Seq<Seq<char>>,
}

/// A listing under way: the number of members is known, and their names are
/// asked for one by one. It always lacks at least one name.
#[derive(Debug, PartialEq, Eq)]
pub struct Listing {
    location: i64,
    members: Members,
    order: Traversal,
    total: u64,
    names: Vec<String>,
}

impl View for Listing {
    type V = ListingView;

    closed spec fn view(&self) -> ListingView {
        ListingView {
            location: self.location,
            members: self.members,
            order: self.order,
            total: self.total as nat,
            names: self.names.deep_view(),
        }
    }
}

/// Where a listing stands after an answer from the engine.
#[derive(Debug, PartialEq, Eq)]
pub enum ListingStep {
    /// One more name is to be asked for, by the listing's `call`.
    Ask(Listing),
    /// The listing is over: these are the names in the order asked for, or
    /// this is why it failed.
    Done(Result<Vec<String>, Error>),
}

/// A step of a listing as a plain value.
pub enum StepView {
    Ask(ListingView),
    Done(Result<Seq<Seq<char>>, ErrorView>),
}

impl View for ListingStep {
    type V = StepView;

    open spec fn view(&self) -> StepView {
        match self {
            ListingStep::Ask(listing) => StepView::Ask(listing@),
            ListingStep::Done(Ok(names)) => StepView::Done(Ok(names.deep_view())),
            ListingStep::Done(Err(error)) => StepView::Done(Err(error@)),
        }
    }
}

/// The first step of a listing, given the outcome of the guarded call that
/// counted the members. With no member the listing is over at once.
pub open spec fn listing_begun(
    location: i64,
    members: Members,
    order: Traversal,
    counted: Result<i64, RecordView>,
) -> StepView {
    match counted {
        Ok(raw) => if raw <= 0 {
            StepView::Done(Ok(Seq::empty()))
        } else {
            StepView::Ask(
                ListingView { location, members, order, total: raw as nat, names: Seq::empty() },
            )
        },
        Err(record) => StepView::Done(Err(native_error(record))),
    }
}

/// The next step of a listing, given the outcome of the guarded call that
/// asked for one more name. A name is added behind those already there; the
/// listing is over once it has as many names as there are members. A failed
/// call ends the listing with its record.
pub open spec fn listing_advanced(listing: ListingView, named: Result<Seq<char>, RecordView>)
    -> StepView {
    match named {
        Ok(name) => {
            let names = listing.names.push(name);
            if names.len() >= listing.total {
                StepView::Done(Ok(names))
            } else {
                StepView::Ask(ListingView { names, ..listing })
            }
        },
        Err(record) => StepView::Done(Err(native_error(record))),
    }
}

/// The call by which a listing asks for its next name: the position is the
/// number of names it has.
pub open spec fn listing_call(listing: ListingView) -> NativeCall {
    NativeCall::NameAt {
        location: listing.location,
        members: listing.members,
        order: listing.order,
        position: listing.names.len() as u64,
    }
}

impl Listing {
    #[verifier::type_invariant]
    spec fn lacks_a_name(self) -> bool {
        self.names@.len() < self.total
    }

    /// The call that asks the engine for the next name.
    pub fn call(&self) -> (call: NativeCall)
        ensures
            call == listing_call(self@),
            self@.names.len() < self@.total,
    {
        proof {
            use_type_invariant(self);
        }
        NativeCall::NameAt {
            location: self.location,
            members: self.members,
            order: self.order,
            position: self.names.len() as u64,
        }
    }

    /// Takes what the guarded `call` came to and says how the listing goes
    /// on.
    pub fn named(self, outcome: Result<String, ErrorRecord>) -> (step: ListingStep)
        ensures
            step@ == listing_advanced(self@, text_outcome(outcome)),
    {
        proof {
            use_type_invariant(&self);
        }
        match outcome {
            Ok(name) => {
                let Listing { location, members, order, total, names } = self;
                let mut names = names;
                let ghost before = names.deep_view();
                names.push(name);
                assert(names.deep_view() =~= before.push(name@));
                if names.len() as u64 >= total {
                    ListingStep::Done(Ok(names))
                } else {
                    ListingStep::Ask(Listing { location, members, order, total, names })
                }
            },
            Err(record) => ListingStep::Done(Err(Error::native(record))),
        }
    }
}

impl<'a> Location<'a> {
    /// Begins an existence probe for the member at `path`, relative to this
    /// location. `installed` is the error handler found in place. The result
    /// holds the probe, the handler to install for its length, which is the
    /// silent one, and the call to make as a guarded call.
    pub fn probe(&self, path: &str, installed: Handler) -> (begun: (Probe, Handler, NativeCall))
        ensures
            begun.0@ == (ProbeView { saved: installed, path: path@ }),
            begun.1 == Handler::Silent,
            begun.2 matches NativeCall::LinkExists { location, path: asked } && location == self@
                && asked@ == path@,
    {
        let (scope, silent) = silence_errors(installed);
        let probe = Probe { scope, path: String::from_str(path) };
        let call = NativeCall::LinkExists { location: self.id(), path: String::from_str(path) };
        (probe, silent, call)
    }

    /// The call that counts the members of the given sort.
    pub fn count_call(&self, members: Members) -> (call: NativeCall)
        ensures
            call == (NativeCall::Count { location: self@, members }),
    {
        NativeCall::Count { location: self.id(), members }
    }

    /// Begins listing the names of the members of the given sort, in the
    /// given order. `counted` is what the guarded `count_call` came to.
    pub fn list(
        &self,
        members: Members,
        order: Traversal,
        counted: Result<i64, ErrorRecord>,
    ) -> (step: ListingStep)
        ensures
            step@ == listing_begun(self@, members, order, raw_outcome(counted)),
    {
        match counted {
            Ok(raw) => {
                let names: Vec<String> = Vec::new();
                assert(names.deep_view() =~= Seq::<Seq<char>>::empty());
                if raw <= 0 {
                    ListingStep::Done(Ok(names))
                } else {
                    ListingStep::Ask(
                        Listing { location: self.id(), members, order, total: raw as u64, names },
                    )
                }
            },
            Err(record) => ListingStep::Done(Err(Error::native(record))),
        }
    }

    /// Begins listing the names of the children in the order of their
    /// creation, which is the order used where none is asked for.
    pub fn children(&self, counted: Result<i64, ErrorRecord>) -> (step: ListingStep)
        ensures
            step@ == listing_begun(
                self@,
                Members::Children,
                Traversal::standard(),
                raw_outcome(counted),
            ),
    {
        self.list(Members::Children, Traversal::by_creation(), counted)
    }

    /// Begins listing the names of the attributes in the order of their
    /// creation.
    pub fn attributes(&self, counted: Result<i64, ErrorRecord>) -> (step: ListingStep)
        ensures
            step@ == listing_begun(
                self@,
                Members::Attributes,
                Traversal::standard(),
                raw_outcome(counted),
            ),
    {
        self.list(Members::Attributes, Traversal::by_creation(), counted)
    }
}

/// The step that a listing has reached once the first `count` of `texts`
/// were given to it as names, one after the other.
pub open spec fn listing_after(listing: ListingView, texts: Seq<Seq<char>>, count: nat) -> StepView
    decreases count,
{
    if count == 0 || count > texts.len() {
        StepView::Ask(listing)
    } else {
        match listing_after(listing, texts, (count - 1) as nat) {
            StepView::Ask(before) => listing_advanced(before, Ok(texts[count - 1])),
            done => done,
        }
    }
}

/// A listing asks for as many names as there are members, at the positions
/// 0, 1, 2 and so on, and ends with exactly the names it was given, in the
/// order in which it asked for them.
pub proof fn lemma_listing_keeps_order(listing: ListingView, texts: Seq<Seq<char>>, count: nat)
    requires
        listing.names.len() == 0,
        listing.total == texts.len(),
        listing.total > 0,
        count <= texts.len(),
    ensures
        count < texts.len() ==> listing_after(listing, texts, count) == StepView::Ask(
            ListingView { names: texts.take(count as int), ..listing },
        ),
        count == texts.len() ==> listing_after(listing, texts, count) == StepView::Done(Ok(texts)),
    decreases count,
{
    if count == 0 {
        assert(texts.take(0) =~= listing.names);
    } else {
        lemma_listing_keeps_order(listing, texts, (count - 1) as nat);
        assert(texts.take(count - 1).push(texts[count - 1]) =~= texts.take(count as int));
        assert(texts.take(texts.len() as int) =~= texts);
    }
}

} // verus!
