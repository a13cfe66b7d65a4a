//! The search for the header at which two branches of the chain part.
//!
//! The search itself never looks a header up. It says which header it needs
//! next, is handed that header, and repeats until both branches have been
//! walked back to one header. Whoever drives it does the lookups. A lookup
//! that finds nothing ends the work: there is nothing to hand to the search,
//! and no event comes of it.

use crate::chain::{ChainTip, Header};
use crate::hash::H256;
use crate::store::HeaderStore;
use vstd::prelude::*;

verus! {

/// A switch of the tracked chain from one branch to another.
#[derive(Clone, Copy, Debug, PartialEq, Eq)]
pub struct ReorganizationEvent {
    /// Block time of the common ancestor, in milliseconds.
    pub timestamp: u64,
    /// Number of headers on the new branch above the common ancestor.
    pub attached_length: u64,
    pub old_tip: ChainTip,
    pub new_tip: ChainTip,
    pub ancestor: ChainTip,
}

/// What a search needs next.
#[derive(Clone, Copy, Debug, PartialEq, Eq)]
pub enum SearchStep {
    /// The header with this hash has to be looked up and supplied.
    Fetch(H256),
    /// Both branches have been walked back to this header.
    Found(Header),
}

/// Why a search refused what it was supplied.
#[derive(Clone, Copy, Debug, PartialEq, Eq)]
pub enum SearchError {
    /// The search is over and waits for no header.
    NotWaiting,
    /// The supplied header is not one height below the header that names it
    /// as parent.
    HeightMismatch,
}

/// The two branches and how far each has been walked back.
#[derive(Clone, Copy, Debug, PartialEq, Eq)]
pub struct SearchState {
    /// Tip of the branch that was tracked before.
    pub old_tip: Header,
    /// Tip of the branch that replaced it.
    pub new_tip: Header,
    /// Header reached on the old branch.
    pub old_cursor: Header,
    /// Header reached on the new branch.
    pub new_cursor: Header,
}

impl SearchState {
    /// The state in which nothing has been walked yet.
    pub open spec fn start(old_tip: Header, new_tip: Header) -> SearchState {
        SearchState { old_tip, new_tip, old_cursor: old_tip, new_cursor: new_tip }
    }

    /// Neither cursor stands above the tip of its branch.
    pub open spec fn wf(self) -> bool {
        &&& self.old_cursor.number <= self.old_tip.number
        &&& self.new_cursor.number <= self.new_tip.number
    }

    /// Both cursors stand at one height on one hash.
    pub open spec fn met(self) -> bool {
        &&& self.old_cursor.number == self.new_cursor.number
        &&& self.old_cursor.hash == self.new_cursor.hash
    }

    /// Whether the next header to fetch continues the old branch. The higher
    /// cursor moves first; at equal heights the old branch does.
    pub open spec fn old_moves(self) -> bool {
        self.old_cursor.number >= self.new_cursor.number
    }

    /// The header whose parent is fetched next.
    pub open spec fn child(self) -> Header {
        if self.old_moves() {
            self.old_cursor
        } else {
            self.new_cursor
        }
    }

    /// What the search needs next.
    pub open spec fn next(self) -> SearchStep {
        if self.met() {
            SearchStep::Found(self.old_cursor)
        } else {
            SearchStep::Fetch(self.child().parent_hash)
        }
    }

    /// Whether `found` is taken as the parent that was asked for.
    pub open spec fn accepts(self, found: Header) -> bool {
        !self.met() && found.number + 1 == self.child().number
    }

    /// The state after `found` was taken.
    pub open spec fn supplied(self, found: Header) -> SearchState {
        if self.old_moves() {
            SearchState { old_cursor: found, ..self }
        } else {
            SearchState { new_cursor: found, ..self }
        }
    }

    /// Why a header that is not accepted is refused.
    pub open spec fn refusal(self) -> SearchError {
        if self.met() {
            SearchError::NotWaiting
        } else {
            SearchError::HeightMismatch
        }
    }

    /// The event that a finished search reports.
    pub open spec fn event(self) -> Option<ReorganizationEvent> {
        if self.met() {
            Some(
                ReorganizationEvent {
                    timestamp: self.old_cursor.timestamp,
                    attached_length: (self.new_tip.number - self.old_cursor.number) as u64,
                    old_tip: self.old_tip.spec_tip(),
                    new_tip: self.new_tip.spec_tip(),
                    ancestor: self.old_cursor.spec_tip(),
                },
            )
        } else {
            None
        }
    }
}

/// The parent of `child` as the header store `source` resolves it: the
/// header stored under the parent hash of `child`, if it stands one height
/// below `child`.
pub open spec fn parent_in(source: Map<H256, Header>, child: Header) -> Option<Header> {
    if source.contains_key(child.parent_hash) && source[child.parent_hash].number + 1
        == child.number {
        Some(source[child.parent_hash])
    } else {
        None
    }
}

/// The header reached from `from` by `depth` steps to the parent in `source`.
pub open spec fn ancestor_at(source: Map<H256, Header>, from: Header, depth: nat) -> Option<
    Header,
>
    decreases depth,
{
    if depth == 0 {
        Some(from)
    } else {
        match parent_in(source, from) {
            Some(parent) => ancestor_at(source, parent, (depth - 1) as nat),
            None => None,
        }
    }
}

/// The branches below `old_tip` and `new_tip` both reach down to `height` in
/// `source` and hold one hash there.
pub open spec fn meet_at(
    source: Map<H256, Header>,
    old_tip: Header,
    new_tip: Header,
    height: nat,
) -> bool {
    &&& height <= old_tip.number
    &&& height <= new_tip.number
    &&& ancestor_at(source, old_tip, (old_tip.number - height) as nat) is Some
    &&& ancestor_at(source, new_tip, (new_tip.number - height) as nat) is Some
    &&& ancestor_at(source, old_tip, (old_tip.number - height) as nat).unwrap().hash
        == ancestor_at(source, new_tip, (new_tip.number - height) as nat).unwrap().hash
}

impl SearchState {
    /// The state after the header asked for next was looked up in `source`
    /// and supplied, if the search waits for one and takes what is stored.
    pub open spec fn answered(self, source: Map<H256, Header>) -> Option<SearchState> {
        if self.met() {
            None
        } else {
            match parent_in(source, self.child()) {
                Some(parent) => Some(self.supplied(parent)),
                None => None,
            }
        }
    }

    /// The header at which the search ends when every lookup is answered from
    /// `source`; `None` if a lookup misses or an answer is refused.
    pub open spec fn outcome(self, source: Map<H256, Header>) -> Option<Header>
        decreases self.old_cursor.number + self.new_cursor.number,
    {
        if self.met() {
            Some(self.old_cursor)
        } else {
            match self.answered(source) {
                Some(next) => next.outcome(source),
                None => None,
            }
        }
    }

    /// The number of lookups that the search makes in `source` until it ends
    /// or a lookup fails.
    pub open spec fn fetches(self, source: Map<H256, Header>) -> nat
        decreases self.old_cursor.number + self.new_cursor.number,
    {
        if self.met() {
            0
        } else {
            match self.answered(source) {
                Some(next) => next.fetches(source) + 1,
                None => 0,
            }
        }
    }

    /// Whether `source` holds every header that the search asks for on its
    /// way: no lookup of the search misses.
    pub open spec fn answerable(self, source: Map<H256, Header>) -> bool
        decreases self.old_cursor.number + self.new_cursor.number,
    {
        if self.met() {
            true
        } else {
            &&& source.contains_key(self.child().parent_hash)
            &&& match self.answered(source) {
                Some(next) => next.answerable(source),
                None => true,
            }
        }
    }

    /// The state in which the search comes to rest when every lookup is
    /// answered from `source`: at the header where the branches meet, or at
    /// the first lookup whose answer it cannot take.
    pub open spec fn settled(self, source: Map<H256, Header>) -> SearchState
        decreases self.old_cursor.number + self.new_cursor.number,
    {
        if self.met() {
            self
        } else {
            match self.answered(source) {
                Some(next) => next.settled(source),
                None => self,
            }
        }
    }

    /// Each cursor is the header that `source` reaches from its tip at the
    /// cursor's height.
    pub open spec fn follows(self, source: Map<H256, Header>) -> bool {
        &&& self.wf()
        &&& ancestor_at(
            source,
            self.old_tip,
            (self.old_tip.number - self.old_cursor.number) as nat,
        ) == Some(self.old_cursor)
        &&& ancestor_at(
            source,
            self.new_tip,
            (self.new_tip.number - self.new_cursor.number) as nat,
        ) == Some(self.new_cursor)
    }
}

/// A header reached by `depth` steps stands `depth` below where the walk began.
pub proof fn lemma_ancestor_height(source: Map<H256, Header>, from: Header, depth: nat)
    requires
        ancestor_at(source, from, depth) is Some,
    ensures
        ancestor_at(source, from, depth).unwrap().number + depth == from.number,
    decreases depth,
{
    if depth > 0 {
        lemma_ancestor_height(source, parent_in(source, from).unwrap(), (depth - 1) as nat);
    }
}

/// One more step from `from` is one step from the header reached so far.
pub proof fn lemma_ancestor_step(source: Map<H256, Header>, from: Header, depth: nat)
    ensures
        ancestor_at(source, from, depth + 1) == match ancestor_at(source, from, depth) {
            Some(reached) => parent_in(source, reached),
            None => None,
        },
    decreases depth,
{
    if depth > 0 {
        match parent_in(source, from) {
            Some(parent) => {
                lemma_ancestor_step(source, parent, (depth - 1) as nat);
            },
            None => {},
        }
    } else {
        match parent_in(source, from) {
            Some(parent) => {
                assert(ancestor_at(source, parent, 0) == Some(parent));
            },
            None => {},
        }
    }
}

/// A walk that reaches `depth` reaches every smaller depth.
pub proof fn lemma_ancestor_prefix(source: Map<H256, Header>, from: Header, depth: nat, less: nat)
    requires
        ancestor_at(source, from, depth) is Some,
        less <= depth,
    ensures
        ancestor_at(source, from, less) is Some,
    decreases depth - less,
{
    if less < depth {
        lemma_ancestor_prefix(source, from, depth, less + 1);
        lemma_ancestor_step(source, from, less);
    }
}

/// Answering a lookup from `source` keeps the cursors on the branches that
/// `source` holds, and moves one of them one height down.
proof fn lemma_answered_follows(source: Map<H256, Header>, state: SearchState)
    requires
        state.follows(source),
        state.answered(source) is Some,
    ensures
        state.answered(source).unwrap().follows(source),
        state.answered(source).unwrap().old_tip == state.old_tip,
        state.answered(source).unwrap().new_tip == state.new_tip,
        state.answered(source).unwrap().old_cursor.number + state.answered(
            source,
        ).unwrap().new_cursor.number + 1 == state.old_cursor.number + state.new_cursor.number,
{
    if state.old_moves() {
        lemma_ancestor_step(
            source,
            state.old_tip,
            (state.old_tip.number - state.old_cursor.number) as nat,
        );
    } else {
        lemma_ancestor_step(
            source,
            state.new_tip,
            (state.new_tip.number - state.new_cursor.number) as nat,
        );
    }
}

proof fn lemma_outcome_from(source: Map<H256, Header>, state: SearchState)
    requires
        state.follows(source),
        state.outcome(source) is Some,
    ensures
        meet_at(source, state.old_tip, state.new_tip, state.outcome(source).unwrap().number as nat),
        ancestor_at(
            source,
            state.old_tip,
            (state.old_tip.number - state.outcome(source).unwrap().number) as nat,
        ) == state.outcome(source),
    decreases state.old_cursor.number + state.new_cursor.number,
{
    if !state.met() {
        lemma_answered_follows(source, state);
        lemma_outcome_from(source, state.answered(source).unwrap());
    }
}

/// Whatever header a search ends at when its lookups are answered from
/// `source` lies on both branches: `source` reaches it from the old tip, and
/// reaches a header with its hash, at its height, from the new tip. It is
/// therefore no higher than either tip.
pub proof fn lemma_found_ancestor_is_common(
    source: Map<H256, Header>,
    old_tip: Header,
    new_tip: Header,
)
    requires
        SearchState::start(old_tip, new_tip).outcome(source) is Some,
    ensures
        meet_at(
            source,
            old_tip,
            new_tip,
            SearchState::start(old_tip, new_tip).outcome(source).unwrap().number as nat,
        ),
        ancestor_at(
            source,
            old_tip,
            (old_tip.number - SearchState::start(old_tip, new_tip).outcome(
                source,
            ).unwrap().number) as nat,
        ) == SearchState::start(old_tip, new_tip).outcome(source),
{
    lemma_outcome_from(source, SearchState::start(old_tip, new_tip));
}

/// A search that ends at a header met no missing header on its way.
pub proof fn lemma_found_without_a_miss(source: Map<H256, Header>, state: SearchState)
    requires
        state.outcome(source) is Some,
    ensures
        state.answerable(source),
    decreases state.old_cursor.number + state.new_cursor.number,
{
    if !state.met() {
        lemma_found_without_a_miss(source, state.answered(source).unwrap());
    }
}

/// Where the search comes to rest says how it ended: it rests on a meeting
/// of the branches exactly if it ends at a header, and then at that header;
/// it never changes the tips it began with.
pub proof fn lemma_settled(source: Map<H256, Header>, state: SearchState)
    ensures
        state.settled(source).old_tip == state.old_tip,
        state.settled(source).new_tip == state.new_tip,
        state.settled(source).met() == state.outcome(source) is Some,
        state.outcome(source) is Some ==> state.outcome(source) == Some(
            state.settled(source).old_cursor,
        ),
        state.wf() ==> state.settled(source).wf(),
    decreases state.old_cursor.number + state.new_cursor.number,
{
    if !state.met() {
        match state.answered(source) {
            Some(next) => {
                lemma_settled(source, next);
            },
            None => {},
        }
    }
}

/// A switch of branches is reported once, with the header at which the
/// branches part. If the branches below the old tip `tip` and the new tip
/// `header` meet somewhere in `source`, the search that begins at the two,
/// answered from `source`, comes to rest with one event to report. The
/// ancestor of that event is the header that `source` reaches from `tip` at
/// the ancestor's height, and `source` reaches a header of the same hash from
/// `header` at that height. The attached length is the number of headers
/// from the ancestor up to `header`, and is never negative.
pub proof fn lemma_switch_is_reported(
    source: Map<H256, Header>,
    tip: Header,
    header: Header,
    height: nat,
)
    requires
        meet_at(source, tip, header, height),
    ensures
        SearchState::start(tip, header).answerable(source),
        SearchState::start(tip, header).settled(source).event() is Some,
        ({
            let event = SearchState::start(tip, header).settled(source).event().unwrap();
            let ancestor = SearchState::start(tip, header).outcome(source).unwrap();
            &&& event.old_tip == tip.spec_tip()
            &&& event.new_tip == header.spec_tip()
            &&& event.ancestor == ancestor.spec_tip()
            &&& event.timestamp == ancestor.timestamp
            &&& event.attached_length == header.number - ancestor.number
            &&& height <= ancestor.number <= lower(tip.number, header.number)
            &&& ancestor_at(source, tip, (tip.number - ancestor.number) as nat) == Some(ancestor)
            &&& meet_at(source, tip, header, ancestor.number as nat)
        }),
{
    let start = SearchState::start(tip, header);
    lemma_search_finds_latest_meeting(source, tip, header, height);
    lemma_found_ancestor_is_common(source, tip, header);
    lemma_found_without_a_miss(source, start);
    lemma_settled(source, start);
}

/// The lower of the two heights.
pub open spec fn lower(a: u64, b: u64) -> nat {
    if a <= b {
        a as nat
    } else {
        b as nat
    }
}

proof fn lemma_search_from(source: Map<H256, Header>, state: SearchState, height: nat)
    requires
        state.follows(source),
        meet_at(source, state.old_tip, state.new_tip, height),
        height <= state.old_cursor.number,
        height <= state.new_cursor.number,
    ensures
        state.outcome(source) is Some,
        state.outcome(source).unwrap().number >= height,
        state.outcome(source).unwrap().number <= lower(
            state.old_cursor.number,
            state.new_cursor.number,
        ),
        state.fetches(source) == (state.old_cursor.number - state.outcome(
            source,
        ).unwrap().number) + (state.new_cursor.number - state.outcome(source).unwrap().number),
        forall|above: nat|
            state.outcome(source).unwrap().number < above <= lower(
                state.old_cursor.number,
                state.new_cursor.number,
            ) ==> !#[trigger] meet_at(source, state.old_tip, state.new_tip, above),
    decreases state.old_cursor.number + state.new_cursor.number,
{
    if !state.met() {
        let old_depth = (state.old_tip.number - state.old_cursor.number) as nat;
        let new_depth = (state.new_tip.number - state.new_cursor.number) as nat;
        let old_meet = (state.old_tip.number - height) as nat;
        let new_meet = (state.new_tip.number - height) as nat;
        if state.old_cursor.number == state.new_cursor.number {
            // The cursors hold different hashes, so they stand above `height`
            // and do not meet at their own height.
            assert(state.old_cursor.number > height);
            assert(!meet_at(
                source,
                state.old_tip,
                state.new_tip,
                state.old_cursor.number as nat,
            ));
        }
        if state.old_moves() {
            lemma_ancestor_prefix(source, state.old_tip, old_meet, old_depth + 1);
            lemma_ancestor_step(source, state.old_tip, old_depth);
        } else {
            lemma_ancestor_prefix(source, state.new_tip, new_meet, new_depth + 1);
            lemma_ancestor_step(source, state.new_tip, new_depth);
        }
        assert(state.answered(source) is Some);
        let next = state.answered(source).unwrap();
        lemma_answered_follows(source, state);
        lemma_search_from(source, next, height);
        let found = state.outcome(source).unwrap();
        assert forall|above: nat|
            found.number < above <= lower(
                state.old_cursor.number,
                state.new_cursor.number,
            ) implies !#[trigger] meet_at(source, state.old_tip, state.new_tip, above) by {
            if above > lower(next.old_cursor.number, next.new_cursor.number) {
                assert(above == state.old_cursor.number);
            }
        }
    }
}

/// If the branches below the two tips meet in `source` at `height`, a search
/// whose lookups are answered from `source` ends, and ends at the highest
/// header at which they meet: at `height` or above, with no meeting of the
/// branches above it. On the way it looks up one header for each height
/// between either tip and that header: first those that bring the higher
/// branch down to the lower tip, then one of each branch in turn.
pub proof fn lemma_search_finds_latest_meeting(
    source: Map<H256, Header>,
    old_tip: Header,
    new_tip: Header,
    height: nat,
)
    requires
        meet_at(source, old_tip, new_tip, height),
    ensures
        SearchState::start(old_tip, new_tip).outcome(source) is Some,
        SearchState::start(old_tip, new_tip).outcome(source).unwrap().number >= height,
        SearchState::start(old_tip, new_tip).outcome(source).unwrap().number <= lower(
            old_tip.number,
            new_tip.number,
        ),
        SearchState::start(old_tip, new_tip).fetches(source) == (old_tip.number
            - SearchState::start(old_tip, new_tip).outcome(source).unwrap().number) + (
        new_tip.number - SearchState::start(old_tip, new_tip).outcome(source).unwrap().number),
        forall|above: nat|
            SearchState::start(old_tip, new_tip).outcome(source).unwrap().number < above <= lower(
                old_tip.number,
                new_tip.number,
            ) ==> !#[trigger] meet_at(source, old_tip, new_tip, above),
{
    lemma_search_from(source, SearchState::start(old_tip, new_tip), height);
}

/// A search for the common ancestor of two branches, driven from outside.
pub struct AncestorSearch {
    state: SearchState,
}

impl View for AncestorSearch {
    type V = SearchState;

    closed spec fn view(&self) -> SearchState {
        self.state
    }
}

impl AncestorSearch {
    #[verifier::type_invariant]
    spec fn inv(self) -> bool {
        self.state.wf()
    }

    /// Starts a search at the tips of the two branches.
    pub fn begin(old_tip: Header, new_tip: Header) -> (search: AncestorSearch)
        ensures
            search@ == SearchState::start(old_tip, new_tip),
            search@.wf(),
    {
        AncestorSearch {
            state: SearchState { old_tip, new_tip, old_cursor: old_tip, new_cursor: new_tip },
        }
    }

    /// What the search needs next: a header to be looked up, or nothing more.
    pub fn next_step(&self) -> (step: SearchStep)
        ensures
            step == self@.next(),
    {
        let old = &self.state.old_cursor;
        let new = &self.state.new_cursor;
        if old.number > new.number {
            SearchStep::Fetch(old.parent_hash)
        } else if new.number > old.number {
            SearchStep::Fetch(new.parent_hash)
        } else if old.hash == new.hash {
            SearchStep::Found(*old)
        } else {
            SearchStep::Fetch(old.parent_hash)
        }
    }

    /// Hands the search the header that it asked for.
    ///
    /// The header is taken if the search waits for one and the header is one
    /// height below the header that names it as parent. Otherwise the search
    /// stays as it was and the error says why. Where the lookup found
    /// nothing there is nothing to hand over: the caller stops.
    pub fn supply(&mut self, found: Header) -> (result: Result<(), SearchError>)
        ensures
            final(self)@.wf(),
            match result {
                Ok(()) => {
                    &&& old(self)@.accepts(found)
                    &&& final(self)@ == old(self)@.supplied(found)
                },
                Err(error) => {
                    &&& !old(self)@.accepts(found)
                    &&& error == old(self)@.refusal()
                    &&& final(self)@ == old(self)@
                },
            },
    {
        proof {
            use_type_invariant(&*self);
        }
        let old = self.state.old_cursor;
        let new = self.state.new_cursor;
        if old.number == new.number && old.hash == new.hash {
            return Err(SearchError::NotWaiting);
        }
        let old_moves = old.number >= new.number;
        let child_number = if old_moves {
            old.number
        } else {
            new.number
        };
        if found.number == u64::MAX || found.number + 1 != child_number {
            return Err(SearchError::HeightMismatch);
        }
        if old_moves {
            self.state.old_cursor = found;
        } else {
            self.state.new_cursor = found;
        }
        Ok(())
    }

    /// Runs the search to its end, answering every lookup from `store`,
    /// which holds every header that the search asks for.
    ///
    /// The result is the reorganization that the search establishes, or the
    /// error at which it stops: a header that `store` holds at the wrong
    /// height. On an error the search stays at the header that it refused.
    pub fn locate_ancestor(&mut self, store: &HeaderStore) -> (result: Result<
        ReorganizationEvent,
        SearchError,
    >)
        requires
            old(self)@.answerable(store@),
        ensures
            final(self)@ == old(self)@.settled(store@),
            final(self)@.wf(),
            result == match final(self)@.event() {
                Some(event) => Ok::<ReorganizationEvent, SearchError>(event),
                None => Err::<ReorganizationEvent, SearchError>(SearchError::HeightMismatch),
            },
            result matches Ok(event) ==> {
                &&& event.attached_length == old(self)@.new_tip.number - event.ancestor.number
                &&& event.ancestor.number <= old(self)@.old_tip.number
                &&& event.ancestor.number <= old(self)@.new_tip.number
            },
    {
        proof {
            use_type_invariant(&*self);
        }
        loop
            invariant
                self@.wf(),
                self@.old_tip == old(self)@.old_tip,
                self@.new_tip == old(self)@.new_tip,
                self@.answerable(store@),
                self@.settled(store@) == old(self)@.settled(store@),
            decreases self@.old_cursor.number + self@.new_cursor.number,
        {
            match self.next_step() {
                SearchStep::Found(_) => {
                    let event = self.report();
                    return Ok(event.unwrap());
                },
                SearchStep::Fetch(hash) => {
                    let found = store.get(&hash);
                    match self.supply(found.unwrap()) {
                        Ok(()) => {},
                        Err(error) => {
                            return Err(error);
                        },
                    }
                },
            }
        }
    }

    /// The reorganization that the search has established: `Some` once both
    /// branches have been walked back to one header, `None` before.
    pub fn report(&self) -> (event: Option<ReorganizationEvent>)
        ensures
            event == self@.event(),
            event matches Some(e) ==> {
                &&& e.attached_length == self@.new_tip.number - e.ancestor.number
                &&& e.ancestor.number <= self@.old_tip.number
                &&& e.ancestor.number <= self@.new_tip.number
            },
    {
        proof {
            use_type_invariant(self);
        }
        let old = &self.state.old_cursor;
        let new = &self.state.new_cursor;
        if old.number == new.number && old.hash == new.hash {
            Some(
                ReorganizationEvent {
                    timestamp: old.timestamp,
                    attached_length: self.state.new_tip.number - old.number,
                    old_tip: self.state.old_tip.tip(),
                    new_tip: self.state.new_tip.tip(),
                    ancestor: old.tip(),
                },
            )
        } else {
            None
        }
    }
}

} // verus!
