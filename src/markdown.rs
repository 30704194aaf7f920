//! The markdown parser and the incremental markdown serializer that the
//! rewriting sits between.
use vstd::prelude::*;
use pulldown_cmark::{BrokenLink, CodeBlockKind, Event, Options, Parser, Tag, TagEnd};
use pulldown_cmark_to_cmark::{Error, State};
use crate::event::{DocEvent, EventView};

verus! {

#[verifier::external_type_specification]
#[verifier::external_body]
pub struct ExCmarkState<'a>(State<'a>);

#[verifier::external_type_specification]
#[verifier::external_body]
pub struct ExCmarkError(Error);

/// A reference-style link whose label has no definition: the byte span it
/// covers in the source text, the kind of link, and its label.
pub struct BrokenLinkReport {
    pub start: usize,
    pub end: usize,
    pub link_type: String,
    pub reference: String,
}

pub struct BrokenLinkView {
    pub start: int,
    pub end: int,
    pub link_type: Seq<char>,
    pub reference: Seq<char>,
}

impl View for BrokenLinkReport {
    type V = BrokenLinkView;

    open spec fn view(&self) -> BrokenLinkView {
        BrokenLinkView {
            start: self.start as int,
            end: self.end as int,
            link_type: self.link_type@,
            reference: self.reference@,
        }
    }
}

pub open spec fn report_views(v: Seq<BrokenLinkReport>) -> Seq<BrokenLinkView> {
    v.map_values(|b: BrokenLinkReport| b@)
}

impl BrokenLinkReport {
    pub fn new(start: usize, end: usize, link_type: String, reference: String) -> (r: BrokenLinkReport)
        ensures
            r@ == (BrokenLinkView {
                start: start as int,
                end: end as int,
                link_type: link_type@,
                reference: reference@,
            }),
    {
        BrokenLinkReport { start, end, link_type, reference }
    }
}

/// The events that a CommonMark parse of a text yields, with no extensions,
/// in document order, and the unresolved reference links it met, in order.
pub uninterp spec fn parsed_markdown(text: Seq<char>) -> (Seq<EventView>, Seq<BrokenLinkView>);

impl DocEvent {
    /// Relies on pulldown_cmark's `Event`: sorts a parsed event by the kinds
    /// that the rewrite rules read, moving its fields.
    #[verifier::external_body]
    pub(crate) fn from_markdown(event: Event<'static>) -> DocEvent {
        match event {
            Event::Start(Tag::CodeBlock(CodeBlockKind::Fenced(h))) => DocEvent::FencedCodeStart(h.into_string()),
            Event::End(TagEnd::CodeBlock) => DocEvent::CodeBlockEnd,
            Event::Text(t) => DocEvent::Text(t.into_string()),
            other => DocEvent::Other(other),
        }
    }

    /// Relies on pulldown_cmark's `Event`: the parsed event that this one
    /// stands for.
    #[verifier::external_body]
    pub(crate) fn into_markdown(self) -> Event<'static> {
        match self {
            DocEvent::FencedCodeStart(h) => Event::Start(Tag::CodeBlock(CodeBlockKind::Fenced(h.into()))),
            DocEvent::CodeBlockEnd => Event::End(TagEnd::CodeBlock),
            DocEvent::Text(t) => Event::Text(t.into()),
            DocEvent::Other(e) => e,
        }
    }
}

/// Relies on `pulldown_cmark::Parser::new_with_broken_link_callback` with
/// no extensions: the events of `text`, and each unresolved reference link,
/// for which the callback offers no replacement.
#[verifier::external_body]
pub(crate) fn parse_markdown(text: &str) -> (r: (Vec<DocEvent>, Vec<BrokenLinkReport>))
    ensures
        (crate::event::event_views(r.0@), report_views(r.1@)) == parsed_markdown(text@),
{
    let mut broken: Vec<BrokenLinkReport> = Vec::new();
    let callback = |link: BrokenLink<'_>| {
        let kind = format!("{:?}", link.link_type);
        broken.push(BrokenLinkReport::new(link.span.start, link.span.end, kind, link.reference.to_string()));
        None
    };
    let events = Parser::new_with_broken_link_callback(text, Options::empty(), Some(callback))
        .map(|e| DocEvent::from_markdown(e.into_static()))
        .collect();
    (events, broken)
}

/// The events that a serializer state has been handed since
/// `State::default()`, in order.
pub uninterp spec fn cmark_history(state: State<'static>) -> Seq<EventView>;

/// What `cmark_resume` writes for the event `e` when resumed from the state
/// left by the events `handed`, or `None` where it returns an error. The
/// serializer's state, and so its output, depends on those events alone.
pub uninterp spec fn cmark_step_text(handed: Seq<EventView>, e: EventView) -> Option<Seq<char>>;

/// What `State::finalize` writes after the events `handed`, or `None`
/// where it returns an error.
pub uninterp spec fn cmark_flush_text(handed: Seq<EventView>) -> Option<Seq<char>>;

/// Relies on `pulldown_cmark_to_cmark::State::default`: the state of a
/// serializer that has been handed nothing yet.
#[verifier::external_body]
pub(crate) fn new_cmark_state() -> (r: State<'static>)
    ensures
        cmark_history(r) == Seq::<EventView>::empty(),
{
    State::default()
}

/// Relies on `pulldown_cmark_to_cmark::cmark_resume`: serializes one event
/// after those that `state` carries and returns the state for the next. It
/// writes to `out` through `fmt::Write`, which on a `String` only appends.
#[verifier::external_body]
pub(crate) fn cmark_step(event: DocEvent, out: &mut String, state: State<'static>) -> (r: Result<State<'static>, Error>)
    ensures
        old(out)@.is_prefix_of(final(out)@),
        r is Ok <==> cmark_step_text(cmark_history(state), event@) is Some,
        r is Ok ==> cmark_history(r->Ok_0) == cmark_history(state).push(event@),
        r is Ok ==> final(out)@ == old(out)@ + cmark_step_text(cmark_history(state), event@)->Some_0,
{
    pulldown_cmark_to_cmark::cmark_resume(std::iter::once(event.into_markdown()), out, Some(state))
}

/// Relies on `pulldown_cmark_to_cmark::State::finalize`: writes what the
/// serializer held back, such as link reference definitions, through
/// `fmt::Write`, which on a `String` only appends.
#[verifier::external_body]
pub(crate) fn cmark_finalize(state: State<'static>, out: &mut String) -> (r: Result<State<'static>, Error>)
    ensures
        old(out)@.is_prefix_of(final(out)@),
        r is Ok <==> cmark_flush_text(cmark_history(state)) is Some,
        r is Ok ==> final(out)@ == old(out)@ + cmark_flush_text(cmark_history(state))->Some_0,
{
    state.finalize(out)
}

/// What the serializer writes for `es`, handed one at a time from the
/// default state, before it is finalized; `None` where a step fails.
pub open spec fn cmark_written(es: Seq<EventView>) -> Option<Seq<char>>
    decreases es.len(),
{
    if es.len() == 0 {
        Some(Seq::empty())
    } else {
        match cmark_written(es.drop_last()) {
            Some(t) => match cmark_step_text(es.drop_last(), es.last()) {
                Some(u) => Some(t + u),
                None => None,
            },
            None => None,
        }
    }
}

/// The whole document the serializer writes for `es`: each event in turn,
/// then the final flush; `None` where any of these fails.
pub open spec fn cmark_doc(es: Seq<EventView>) -> Option<Seq<char>> {
    match cmark_written(es) {
        Some(t) => match cmark_flush_text(es) {
            Some(u) => Some(t + u),
            None => None,
        },
        None => None,
    }
}

/// Once a step fails, every longer stream fails too.
pub proof fn lemma_written_fails_onward(es: Seq<EventView>, n: int, m: int)
    requires
        0 <= n <= m <= es.len(),
        cmark_written(es.take(n)) is None,
    ensures
        cmark_written(es.take(m)) is None,
    decreases m - n,
{
    if n < m {
        assert(es.take(n + 1).drop_last() =~= es.take(n));
        lemma_written_fails_onward(es, n + 1, m);
    }
}

} // verus!
