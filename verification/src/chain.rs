//! Headers, chain tips, and the tracker that tells an extension of the
//! tracked chain from a switch to a competing branch.

use crate::ancestor::{AncestorSearch, SearchState};
use crate::hash::H256;
use crate::wire::{announced_header, parse_header, DecodeError};
use vstd::prelude::*;

verus! {

/// A block header as far as chain tracking reads it.
#[derive(Clone, Copy, Debug, PartialEq, Eq)]
pub struct Header {
    /// Identity of the header.
    pub hash: H256,
    /// Identity of the header one height below.
    pub parent_hash: H256,
    /// Block height.
    pub number: u64,
    /// Block time in milliseconds since the Unix epoch.
    pub timestamp: u64,
}

/// Height and identity of a header.
#[derive(Clone, Copy, Debug, PartialEq, Eq)]
pub struct ChainTip {
    pub number: u64,
    pub hash: H256,
}

impl Header {
    /// Height and identity of this header.
    pub open spec fn spec_tip(&self) -> ChainTip {
        ChainTip { number: self.number, hash: self.hash }
    }

    /// Height and identity of this header.
    #[verifier::when_used_as_spec(spec_tip)]
    pub fn tip(&self) -> (t: ChainTip)
        ensures
            t == self.spec_tip(),
    {
        ChainTip { number: self.number, hash: self.hash }
    }
}

/// Reads a header from its JSON text, as the node announces it and as it
/// answers a lookup. The hash is computed from the fields of the header, not
/// taken from the text.
pub fn decode_header(message: &str) -> (result: Result<Header, DecodeError>)
    ensures
        result == match announced_header(message@) {
            Some(header) => Ok::<Header, DecodeError>(header),
            None => Err::<Header, DecodeError>(DecodeError::MalformedHeader),
        },
{
    match parse_header(message) {
        Ok(header) => Ok(header),
        Err(_) => Err(DecodeError::MalformedHeader),
    }
}

/// How a newly announced header relates to the tracked tip.
#[derive(Clone, Copy, Debug, PartialEq, Eq)]
pub enum TipChange {
    /// The header carries the hash of the tracked tip: the tip, announced
    /// again.
    Unchanged,
    /// Nothing was tracked yet, or the header builds on the tracked tip.
    Extended,
    /// The header builds on something other than the tracked tip.
    Diverged,
}

/// Classifies `header` against the tracked tip `tip`.
pub open spec fn classify(tip: Option<Header>, header: Header) -> TipChange {
    match tip {
        None => TipChange::Extended,
        Some(current) => if header.hash == current.hash {
            TipChange::Unchanged
        } else if header.parent_hash == current.hash {
            TipChange::Extended
        } else {
            TipChange::Diverged
        },
    }
}

/// The tracked tip after `header` was processed: `header`, whatever was
/// tracked before.
pub open spec fn tip_after(tip: Option<Header>, header: Header) -> Option<Header> {
    Some(header)
}

/// The tracked tip after the headers `headers` were processed in order from
/// the tracked tip `tip`.
pub open spec fn tip_after_all(tip: Option<Header>, headers: Seq<Header>) -> Option<Header>
    decreases headers.len(),
{
    if headers.len() == 0 {
        tip
    } else {
        tip_after_all(tip_after(tip, headers[0]), headers.drop_first())
    }
}

/// How many headers of `headers`, processed in order from the tracked tip
/// `tip`, switch the tracker to a competing branch.
pub open spec fn divergences(tip: Option<Header>, headers: Seq<Header>) -> nat
    decreases headers.len(),
{
    if headers.len() == 0 {
        0
    } else {
        let rest = divergences(tip_after(tip, headers[0]), headers.drop_first());
        if classify(tip, headers[0]) is Diverged {
            rest + 1
        } else {
            rest
        }
    }
}

/// Each header of `headers` but the first names the one before it as its
/// parent.
pub open spec fn linked(headers: Seq<Header>) -> bool {
    forall|i: int| 0 < i < headers.len() ==> (#[trigger] headers[i]).parent_hash == headers[i - 1].hash
}

/// The first header of `headers`, if there is one, builds on `tip`, if there
/// is one.
pub open spec fn continues(tip: Option<Header>, headers: Seq<Header>) -> bool {
    tip is Some && headers.len() > 0 ==> headers[0].parent_hash == tip.unwrap().hash
}

/// A run of headers in which each builds on the one before, fed to a tracker
/// that tracks nothing yet or whose tip the first header builds on, never
/// switches branches, and leaves the last header of the run as the tracked tip.
pub proof fn lemma_linked_headers_never_diverge(tip: Option<Header>, headers: Seq<Header>)
    requires
        linked(headers),
        continues(tip, headers),
    ensures
        divergences(tip, headers) == 0,
        headers.len() > 0 ==> tip_after_all(tip, headers) == Some(headers.last()),
    decreases headers.len(),
{
    if headers.len() > 0 {
        let first = headers[0];
        let rest = headers.drop_first();
        let next = tip_after(tip, first);
        assert(!(classify(tip, first) is Diverged));
        assert(next is Some && next.unwrap().hash == first.hash);
        assert forall|i: int| 0 < i < rest.len() implies (#[trigger] rest[i]).parent_hash == rest[i
            - 1].hash by {
            assert(rest[i] == headers[i + 1]);
            assert(rest[i - 1] == headers[i]);
        }
        if rest.len() > 0 {
            assert(rest[0] == headers[1]);
            assert(rest.last() == headers.last());
        }
        lemma_linked_headers_never_diverge(next, rest);
    }
}

/// Announcing a header a second time, right after the first, neither counts
/// as a switch of branches nor changes the tracked tip: the tip is that
/// header after the first time and after the second.
pub proof fn lemma_repeated_header_is_ignored(tip: Option<Header>, header: Header)
    ensures
        classify(tip_after(tip, header), header) is Unchanged,
        tip_after(tip_after(tip, header), header) == tip_after(tip, header),
{
}

/// Follows the tip of the chain that the observed node considers canonical.
pub struct ChainTracker {
    current: Option<Header>,
}

impl View for ChainTracker {
    type V = Option<Header>;

    /// The header tracked as the tip, if any.
    closed spec fn view(&self) -> Option<Header> {
        self.current
    }
}

impl ChainTracker {
    /// A tracker that has seen no header yet.
    pub fn new() -> (tracker: ChainTracker)
        ensures
            tracker@ is None,
    {
        ChainTracker { current: None }
    }

    /// Height and identity of the tracked tip.
    pub fn current_tip(&self) -> (tip: Option<ChainTip>)
        ensures
            tip == match self@ {
                Some(header) => Some(header.spec_tip()),
                None => None,
            },
    {
        match &self.current {
            Some(header) => Some(header.tip()),
            None => None,
        }
    }

    /// Processes the next header of the stream of tip changes.
    ///
    /// The header becomes the tracked tip. If it neither is the tip tracked
    /// before, announced again, nor builds on it, the chain has switched
    /// branches: the result is then the search for the common ancestor of
    /// the two tips, not yet begun. In every other case there is no search,
    /// so that nothing is looked up and nothing reported.
    pub fn on_new_header(&mut self, header: Header) -> (search: Option<AncestorSearch>)
        ensures
            final(self)@ == Some(header),
            final(self)@ == tip_after(old(self)@, header),
            match classify(old(self)@, header) {
                TipChange::Diverged => search is Some && search.unwrap()@ == SearchState::start(
                    old(self)@.unwrap(),
                    header,
                ),
                _ => search is None,
            },
    {
        match self.compare(&header) {
            TipChange::Unchanged => {
                self.current = Some(header);
                None
            },
            TipChange::Extended => {
                self.current = Some(header);
                None
            },
            TipChange::Diverged => {
                let old_tip = self.current.unwrap();
                self.current = Some(header);
                Some(AncestorSearch::begin(old_tip, header))
            },
        }
    }

    /// Processes the next message of the stream of tip changes: the JSON text
    /// of a header.
    ///
    /// A text that is not the JSON of a header is refused and changes
    /// nothing. Otherwise the header is processed as `on_new_header` does.
    pub fn on_header_message(&mut self, message: &str) -> (result: Result<
        Option<AncestorSearch>,
        DecodeError,
    >)
        ensures
            match announced_header(message@) {
                Some(header) => {
                    &&& result is Ok
                    &&& final(self)@ == Some(header)
                    &&& match classify(old(self)@, header) {
                        TipChange::Diverged => result.unwrap() is Some && result.unwrap().unwrap()@
                            == SearchState::start(old(self)@.unwrap(), header),
                        _ => result.unwrap() is None,
                    }
                },
                None => {
                    &&& result matches Err(DecodeError::MalformedHeader)
                    &&& final(self)@ == old(self)@
                },
            },
    {
        match decode_header(message) {
            Ok(header) => Ok(self.on_new_header(header)),
            Err(error) => Err(error),
        }
    }

    /// Says how `header` relates to the tracked tip, without tracking it.
    pub fn compare(&self, header: &Header) -> (change: TipChange)
        ensures
            change == classify(self@, *header),
    {
        match &self.current {
            None => TipChange::Extended,
            Some(current) => if header.hash == current.hash {
                TipChange::Unchanged
            } else if header.parent_hash == current.hash {
                TipChange::Extended
            } else {
                TipChange::Diverged
            },
        }
    }
}

} // verus!
