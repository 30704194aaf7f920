//! The markdown events that the rewrite rules look at, and the rules.
use vstd::prelude::*;
use pulldown_cmark::Event;
use crate::doctest::{strip_hidden, strip_hidden_lines};

verus! {

#[verifier::external_type_specification]
#[verifier::external_body]
pub struct ExEvent<'a>(Event<'a>);

/// The hint given to fences that name no language: doc comments are
/// snippets of the package's own language unless they say otherwise.
pub const DEFAULT_LANGUAGE_HINT: &'static str = "rust";

/// One markdown event, split into the kinds that the rewrite rules read.
/// Every other event is carried through as it came from the parser.
pub enum DocEvent {
    /// Start of a fenced code block, with its language hint (may be empty).
    FencedCodeStart(String),
    /// End of a code block.
    CodeBlockEnd,
    /// A run of text.
    Text(String),
    /// Any other event, passed on unchanged. The parser never puts a fenced
    /// code start, a code-block end or a text run here; an event built by
    /// hand that does bypasses the rewrite rules.
    Other(Event<'static>),
}

/// What a `DocEvent` holds, with its strings as character sequences.
pub enum EventView {
    FencedCodeStart(Seq<char>),
    CodeBlockEnd,
    Text(Seq<char>),
    Other(Event<'static>),
}

impl View for DocEvent {
    type V = EventView;

    open spec fn view(&self) -> EventView {
        match self {
            DocEvent::FencedCodeStart(h) => EventView::FencedCodeStart(h@),
            DocEvent::CodeBlockEnd => EventView::CodeBlockEnd,
            DocEvent::Text(t) => EventView::Text(t@),
            DocEvent::Other(e) => EventView::Other(*e),
        }
    }
}

pub open spec fn event_views(v: Seq<DocEvent>) -> Seq<EventView> {
    v.map_values(|e: DocEvent| e@)
}

/// Whether the stream is inside a fenced code block after `e`, given
/// whether it was before.
pub open spec fn code_flag_after(in_code: bool, e: EventView) -> bool {
    match e {
        EventView::FencedCodeStart(_) => true,
        EventView::CodeBlockEnd => false,
        _ => in_code,
    }
}

/// The rewrite of one event: an empty fence hint becomes `default_hint`;
/// inside a fenced code block, text loses its hidden lines; every other
/// event is unchanged.
pub open spec fn rewrite(in_code: bool, e: EventView, default_hint: Seq<char>) -> EventView {
    match e {
        EventView::FencedCodeStart(h) => EventView::FencedCodeStart(
            if h.len() == 0 { default_hint } else { h },
        ),
        EventView::Text(t) => if in_code {
            EventView::Text(strip_hidden(t))
        } else {
            EventView::Text(t)
        },
        _ => e,
    }
}

/// Whether the stream is inside a fenced code block just before `events[i]`;
/// a stream starts outside of one.
pub open spec fn in_code_before(events: Seq<EventView>, i: int) -> bool
    decreases i,
{
    if i <= 0 {
        false
    } else {
        code_flag_after(in_code_before(events, i - 1), events[i - 1])
    }
}

/// The stream with each event rewritten, one for one, in order.
pub open spec fn transform(events: Seq<EventView>, default_hint: Seq<char>) -> Seq<EventView> {
    Seq::new(events.len(), |i: int| rewrite(in_code_before(events, i), events[i], default_hint))
}

/// A stream in which no fence lacks a hint and no text stands inside a
/// fenced code block comes out of the rewrite unchanged.
pub proof fn lemma_transform_identity(events: Seq<EventView>, default_hint: Seq<char>)
    requires
        forall|i: int|
            0 <= i < events.len() ==> !(#[trigger] events[i] == EventView::FencedCodeStart(
                Seq::<char>::empty(),
            )),
        forall|i: int|
            0 <= i < events.len() && #[trigger] events[i] is Text ==> !in_code_before(events, i),
    ensures
        transform(events, default_hint) == events,
{
    assert forall|i: int| 0 <= i < events.len() implies transform(events, default_hint)[i]
        == events[i] by {
        if let EventView::FencedCodeStart(h) = events[i] {
            if h.len() == 0 {
                assert(h =~= Seq::<char>::empty());
            }
        }
    }
    assert(transform(events, default_hint) =~= events);
}

/// A fence without a hint gets the default hint; a fence with a hint keeps
/// it, wherever the fence stands in the stream.
pub proof fn lemma_fence_tagging(events: Seq<EventView>, default_hint: Seq<char>, i: int)
    requires
        0 <= i < events.len(),
        events[i] is FencedCodeStart,
    ensures
        events[i]->FencedCodeStart_0.len() == 0 ==> transform(events, default_hint)[i]
            == EventView::FencedCodeStart(default_hint),
        events[i]->FencedCodeStart_0.len() > 0 ==> transform(events, default_hint)[i]
            == events[i],
{
}

/// The stream is inside a fenced code block just before `events[i]` exactly
/// when an earlier event opened a fenced block and no code-block end has
/// come since, whatever other constructs stand around them.
pub proof fn lemma_in_code_between_fences(events: Seq<EventView>, i: int)
    requires
        0 <= i <= events.len(),
    ensures
        in_code_before(events, i) <==> exists|j: int|
            0 <= j < i && #[trigger] events[j] is FencedCodeStart && forall|k: int|
                j < k < i ==> !(#[trigger] events[k] is CodeBlockEnd),
    decreases i,
{
    if i > 0 {
        lemma_in_code_between_fences(events, i - 1);
        let e = events[i - 1];
        if e is FencedCodeStart {
            assert(forall|k: int| i - 1 < k < i ==> !(#[trigger] events[k] is CodeBlockEnd));
        } else if e is CodeBlockEnd {
            assert forall|j: int| 0 <= j < i && #[trigger] events[j] is FencedCodeStart implies !(
            forall|k: int| j < k < i ==> !(#[trigger] events[k] is CodeBlockEnd)) by {
                assert(j < i - 1);
                assert(events[i - 1] is CodeBlockEnd);
            }
        } else {
            if in_code_before(events, i - 1) {
                let j = choose|j: int|
                    0 <= j < i - 1 && #[trigger] events[j] is FencedCodeStart && forall|k: int|
                        j < k < i - 1 ==> !(#[trigger] events[k] is CodeBlockEnd);
                assert(forall|k: int| j < k < i ==> !(#[trigger] events[k] is CodeBlockEnd));
            } else {
                assert forall|j: int|
                    0 <= j < i && #[trigger] events[j] is FencedCodeStart implies !(forall|k: int|
                    j < k < i ==> !(#[trigger] events[k] is CodeBlockEnd)) by {
                    assert(j < i - 1);
                    if forall|k: int| j < k < i ==> !(#[trigger] events[k] is CodeBlockEnd) {
                        assert(forall|k: int| j < k < i - 1 ==> !(#[trigger] events[k] is CodeBlockEnd));
                    }
                }
            }
        }
    }
}

/// The rewriting state: the language hint given to untyped fences, and
/// whether the events seen so far leave the stream inside a fenced block.
pub struct Transformer {
    default_hint: String,
    in_code_block: bool,
}

impl Transformer {
    pub closed spec fn hint(&self) -> Seq<char> {
        self.default_hint@
    }

    pub closed spec fn in_code(&self) -> bool {
        self.in_code_block
    }

    /// A transformer at the start of a stream, outside any code block.
    pub fn new(default_hint: &str) -> (t: Transformer)
        ensures
            t.hint() == default_hint@,
            !t.in_code(),
    {
        Transformer { default_hint: default_hint.to_string(), in_code_block: false }
    }

    pub fn in_code_block(&self) -> (r: bool)
        ensures
            r == self.in_code(),
    {
        self.in_code_block
    }

    /// Rewrites one event and moves past it.
    pub fn transform(&mut self, event: DocEvent) -> (r: DocEvent)
        ensures
            r@ == rewrite(old(self).in_code(), event@, old(self).hint()),
            final(self).in_code() == code_flag_after(old(self).in_code(), event@),
            final(self).hint() == old(self).hint(),
    {
        match event {
            DocEvent::FencedCodeStart(h) => {
                self.in_code_block = true;
                if h.as_str().is_empty() {
                    DocEvent::FencedCodeStart(self.default_hint.clone())
                } else {
                    DocEvent::FencedCodeStart(h)
                }
            },
            DocEvent::CodeBlockEnd => {
                self.in_code_block = false;
                DocEvent::CodeBlockEnd
            },
            DocEvent::Text(t) => {
                if self.in_code_block {
                    DocEvent::Text(strip_hidden_lines(t.as_str()))
                } else {
                    DocEvent::Text(t)
                }
            },
            DocEvent::Other(e) => DocEvent::Other(e),
        }
    }
}

} // verus!
