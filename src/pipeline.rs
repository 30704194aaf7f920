//! The driving loop: events are rewritten one at a time and handed, in
//! order, to one serializer whose state carries over from each to the next.
use vstd::prelude::*;
use pulldown_cmark_to_cmark::State;
use crate::event::{event_views, transform, DocEvent, EventView, Transformer};
use crate::markdown::{
    cmark_doc, cmark_finalize, cmark_flush_text, cmark_history, cmark_step, cmark_step_text,
    cmark_written, lemma_written_fails_onward, new_cmark_state, parse_markdown, parsed_markdown,
    report_views, BrokenLinkReport,
};

verus! {

/// Why rendering stopped.
#[derive(Debug, PartialEq, Eq, Structural)]
pub enum RenderError {
    /// The serializer refused an event or could not write its output.
    CouldNotWrite,
}

/// A markdown serializer between two events. Each step consumes it and
/// returns the next one.
pub struct MarkdownWriter {
    state: State<'static>,
}

impl MarkdownWriter {
    /// The events handed to the serializer so far, in order.
    pub closed spec fn handed(&self) -> Seq<EventView> {
        cmark_history(self.state)
    }

    pub fn new() -> (w: MarkdownWriter)
        ensures
            w.handed() == Seq::<EventView>::empty(),
    {
        MarkdownWriter { state: new_cmark_state() }
    }

    /// Serializes one more event after those handed before, appending what
    /// the serializer writes for it to `out`, and returns the writer for the
    /// next event.
    pub fn write_event(self, event: DocEvent, out: &mut String) -> (r: Result<MarkdownWriter, RenderError>)
        ensures
            old(out)@.is_prefix_of(final(out)@),
            r is Ok <==> cmark_step_text(self.handed(), event@) is Some,
            r is Ok ==> r->Ok_0.handed() == self.handed().push(event@),
            r is Ok ==> final(out)@ == old(out)@ + cmark_step_text(self.handed(), event@)->Some_0,
    {
        match cmark_step(event, out, self.state) {
            Ok(state) => Ok(MarkdownWriter { state }),
            Err(_) => Err(RenderError::CouldNotWrite),
        }
    }

    /// Writes whatever the serializer held back until the end.
    pub fn finish(self, out: &mut String) -> (r: Result<(), RenderError>)
        ensures
            old(out)@.is_prefix_of(final(out)@),
            r is Ok <==> cmark_flush_text(self.handed()) is Some,
            r is Ok ==> final(out)@ == old(out)@ + cmark_flush_text(self.handed())->Some_0,
    {
        match cmark_finalize(self.state, out) {
            Ok(_) => Ok(()),
            Err(_) => Err(RenderError::CouldNotWrite),
        }
    }
}

/// Rewrites `events` one at a time, hands each to a fresh serializer as
/// soon as it is rewritten, threading the serializer from each step to the
/// next, and finalizes it. The first step that fails ends the run. On
/// success `out` has gained exactly the document the serializer writes for
/// the rewritten stream.
pub fn write_document(events: Vec<DocEvent>, default_hint: &str, out: &mut String) -> (r: Result<(), RenderError>)
    ensures
        old(out)@.is_prefix_of(final(out)@),
        r is Ok <==> cmark_doc(transform(event_views(events@), default_hint@)) is Some,
        r is Ok ==> final(out)@ == old(out)@ + cmark_doc(
            transform(event_views(events@), default_hint@),
        )->Some_0,
{
    let ghost evs = event_views(events@);
    let ghost rewritten = transform(evs, default_hint@);
    let ghost out0 = out@;
    let mut w = MarkdownWriter::new();
    let mut transformer = Transformer::new(default_hint);
    proof {
        assert(rewritten.take(0) =~= Seq::<EventView>::empty());
    }
    for event in it: events
        invariant
            evs == event_views(it.seq()),
            evs == event_views(events@),
            out0 == old(out)@,
            rewritten == transform(evs, default_hint@),
            transformer.hint() == default_hint@,
            transformer.in_code() == crate::event::in_code_before(evs, it.index() as int),
            w.handed() == rewritten.take(it.index() as int),
            cmark_written(rewritten.take(it.index() as int)) is Some,
            out@ == out0 + cmark_written(rewritten.take(it.index() as int))->Some_0,
    {
        let ghost i = it.index() as int;
        let ghost before = out@;
        let next = transformer.transform(event);
        let r = w.write_event(next, out);
        proof {
            assert(rewritten.take(i + 1).drop_last() =~= rewritten.take(i));
            assert(rewritten.take(i + 1).last() == rewritten[i]);
            assert(rewritten.take(i + 1) =~= rewritten.take(i).push(rewritten[i]));
            assert(out0.is_prefix_of(out@)) by {
                assert(forall|k: int| 0 <= k < out0.len() ==> out0[k] == before[k]);
            }
        }
        match r {
            Ok(next_writer) => {
                w = next_writer;
                proof {
                    assert(out@ =~= out0 + cmark_written(rewritten.take(i + 1))->Some_0);
                }
            },
            Err(e) => {
                proof {
                    lemma_written_fails_onward(rewritten, i + 1, rewritten.len() as int);
                    assert(rewritten.take(rewritten.len() as int) =~= rewritten);
                }
                return Err(e);
            },
        }
    }
    proof {
        assert(rewritten.take(evs.len() as int) =~= rewritten);
    }
    let ghost written = out@;
    let r = w.finish(out);
    proof {
        assert(out0.is_prefix_of(out@)) by {
            assert(forall|k: int| 0 <= k < out0.len() ==> out0[k] == written[k]);
        }
        if r is Ok {
            assert(out@ =~= out0 + cmark_doc(rewritten)->Some_0);
        }
    }
    r
}

/// A rendered document and the unresolved reference links met in its source.
pub struct Rendered {
    pub markdown: String,
    pub broken_links: Vec<BrokenLinkReport>,
}

/// The document that rendering `docs` produces: the serializer's output
/// for the rewritten events of its parse.
pub open spec fn rendered_doc(docs: Seq<char>, default_hint: Seq<char>) -> Option<Seq<char>> {
    cmark_doc(transform(parsed_markdown(docs).0, default_hint))
}

/// Parses `docs` as markdown, rewrites its events and serializes them again.
/// It succeeds exactly when the serializer takes every rewritten event and
/// the final flush; the markdown is then all that the serializer wrote, and
/// the broken links are those the parse reported, in order.
pub fn render_markdown(docs: &str, default_hint: &str) -> (r: Result<Rendered, RenderError>)
    ensures
        r is Ok <==> rendered_doc(docs@, default_hint@) is Some,
        r is Ok ==> r->Ok_0.markdown@ == rendered_doc(docs@, default_hint@)->Some_0,
        r is Ok ==> report_views(r->Ok_0.broken_links@) == parsed_markdown(docs@).1,
{
    let (events, broken_links) = parse_markdown(docs);
    let mut markdown = String::new();
    write_document(events, default_hint, &mut markdown)?;
    proof {
        assert(markdown@ =~= rendered_doc(docs@, default_hint@)->Some_0);
    }
    Ok(Rendered { markdown, broken_links })
}

} // verus!
