//! Accumulation of a turn's text and the outward event that each upstream
//! event gives rise to.

use vstd::prelude::*;
use crate::event::{OutwardEvent, OutwardEventView, UpstreamEvent, UpstreamEventView};

verus! {

/// The running text after `ev`, given the running text `buf` before it.
pub open spec fn step_buffer(buf: Seq<char>, ev: UpstreamEventView) -> Seq<char> {
    match ev {
        UpstreamEventView::TextDelta(d) => buf + d,
        UpstreamEventView::TurnDone => Seq::empty(),
        UpstreamEventView::Failure(_) => Seq::empty(),
        _ => buf,
    }
}

/// The outward event that `ev` gives rise to, given the running text `buf`.
pub open spec fn step_output(buf: Seq<char>, ev: UpstreamEventView) -> Option<OutwardEventView> {
    match ev {
        UpstreamEventView::TextDelta(d) => Some(OutwardEventView::Partial { text: buf + d }),
        UpstreamEventView::TurnDone => if buf.len() > 0 {
            Some(OutwardEventView::Final { text: buf })
        } else {
            None
        },
        UpstreamEventView::Failure(p) => Some(OutwardEventView::Error { data: p }),
        _ => None,
    }
}

/// The running text after the events `evs`, in order.
pub open spec fn run_buffer(buf: Seq<char>, evs: Seq<UpstreamEventView>) -> Seq<char>
    decreases evs.len(),
{
    if evs.len() == 0 {
        buf
    } else {
        run_buffer(step_buffer(buf, evs[0]), evs.drop_first())
    }
}

/// The outward events that the events `evs` give rise to, in order.
pub open spec fn run_outputs(buf: Seq<char>, evs: Seq<UpstreamEventView>) -> Seq<OutwardEventView>
    decreases evs.len(),
{
    if evs.len() == 0 {
        Seq::empty()
    } else {
        let head = match step_output(buf, evs[0]) {
            Some(out) => seq![out],
            None => Seq::empty(),
        };
        head + run_outputs(step_buffer(buf, evs[0]), evs.drop_first())
    }
}

/// The fragments `deltas` joined in order.
pub open spec fn concat(deltas: Seq<Seq<char>>) -> Seq<char>
    decreases deltas.len(),
{
    if deltas.len() == 0 {
        Seq::empty()
    } else {
        deltas[0] + concat(deltas.drop_first())
    }
}

/// The partial events of the fragments `deltas` on top of the text `buf`:
/// one for each fragment, each with the whole text up to it.
pub open spec fn partials(buf: Seq<char>, deltas: Seq<Seq<char>>) -> Seq<OutwardEventView>
    decreases deltas.len(),
{
    if deltas.len() == 0 {
        Seq::empty()
    } else {
        seq![OutwardEventView::Partial { text: buf + deltas[0] }] + partials(
            buf + deltas[0],
            deltas.drop_first(),
        )
    }
}

/// The upstream events of the fragments `deltas` followed by the end of the
/// turn.
pub open spec fn deltas_then_done(deltas: Seq<Seq<char>>) -> Seq<UpstreamEventView> {
    deltas.map_values(|d: Seq<char>| UpstreamEventView::TextDelta(d)).push(
        UpstreamEventView::TurnDone,
    )
}

/// The final event for `text`, if there is any text.
pub open spec fn final_of(text: Seq<char>) -> Seq<OutwardEventView> {
    if text.len() > 0 {
        seq![OutwardEventView::Final { text }]
    } else {
        Seq::empty()
    }
}

/// Fragments followed by the end of the turn give one partial event for each
/// fragment and then exactly one final event, whose text is the running text
/// followed by all fragments in order; where that text is empty there is no
/// final event. The running text is empty afterwards.
pub proof fn lemma_deltas_then_done(buf: Seq<char>, deltas: Seq<Seq<char>>)
    ensures
        run_outputs(buf, deltas_then_done(deltas)) == partials(buf, deltas) + final_of(
            buf + concat(deltas),
        ),
        run_buffer(buf, deltas_then_done(deltas)) == Seq::<char>::empty(),
    decreases deltas.len(),
{
    let evs = deltas_then_done(deltas);
    if deltas.len() == 0 {
        assert(evs.drop_first() =~= Seq::<UpstreamEventView>::empty());
        assert(evs[0] == UpstreamEventView::TurnDone);
        assert(buf + concat(deltas) =~= buf);
        assert(run_outputs(Seq::<char>::empty(), evs.drop_first()) =~= Seq::<
            OutwardEventView,
        >::empty());
        assert(run_outputs(buf, evs) =~= partials(buf, deltas) + final_of(buf + concat(deltas)));
        assert(run_buffer(Seq::<char>::empty(), evs.drop_first()) == Seq::<char>::empty());
        assert(run_buffer(buf, evs) == run_buffer(step_buffer(buf, evs[0]), evs.drop_first()));
    } else {
        let rest = deltas.drop_first();
        assert(evs.drop_first() =~= deltas_then_done(rest));
        assert(evs[0] == UpstreamEventView::TextDelta(deltas[0]));
        lemma_deltas_then_done(buf + deltas[0], rest);
        assert((buf + deltas[0]) + concat(rest) =~= buf + concat(deltas));
        assert(run_outputs(buf, evs) =~= partials(buf, deltas) + final_of(buf + concat(deltas)));
        assert(run_buffer(buf, evs) == run_buffer(step_buffer(buf, evs[0]), evs.drop_first()));
    }
}

/// The end of a turn with no running text gives no outward event.
pub proof fn lemma_done_on_empty()
    ensures
        step_output(Seq::empty(), UpstreamEventView::TurnDone).is_none(),
        run_outputs(Seq::empty(), seq![UpstreamEventView::TurnDone]) == Seq::<
            OutwardEventView,
        >::empty(),
{
    lemma_deltas_then_done(Seq::empty(), Seq::empty());
    assert(deltas_then_done(Seq::empty()) =~= seq![UpstreamEventView::TurnDone]);
    assert(Seq::<char>::empty() + concat(Seq::empty()) =~= Seq::<char>::empty());
}

/// A final event comes only with the end of a turn, carries the whole running
/// text, and leaves none behind: the end of a turn that follows at once gives
/// no second one.
pub proof fn lemma_final_at_most_once(buf: Seq<char>, ev: UpstreamEventView)
    requires
        step_output(buf, ev) matches Some(OutwardEventView::Final { .. }),
    ensures
        ev == UpstreamEventView::TurnDone,
        step_output(buf, ev) == Some(OutwardEventView::Final { text: buf }),
        buf.len() > 0,
        step_buffer(buf, ev) == Seq::<char>::empty(),
        step_output(step_buffer(buf, ev), UpstreamEventView::TurnDone).is_none(),
{
}

/// The running text of the turn in flight.
#[derive(Clone, Debug)]
pub struct Adapter {
    buffer: String,
}

impl View for Adapter {
    type V = Seq<char>;

    closed spec fn view(&self) -> Seq<char> {
        self.buffer@
    }
}

impl Adapter {
    /// An adapter with no running text.
    pub fn new() -> (a: Adapter)
        ensures
            a@ == Seq::<char>::empty(),
    {
        Adapter { buffer: String::new() }
    }

    /// The running text.
    pub fn text(&self) -> (t: &str)
        ensures
            t@ == self@,
    {
        self.buffer.as_str()
    }

    /// Takes one upstream event: the running text and the outward event, if
    /// any, are those of `step_buffer` and `step_output`.
    pub fn apply(&mut self, ev: UpstreamEvent) -> (out: Option<OutwardEvent>)
        ensures
            final(self)@ == step_buffer(old(self)@, ev@),
            match out {
                Some(o) => step_output(old(self)@, ev@) == Some(o@),
                None => step_output(old(self)@, ev@).is_none(),
            },
    {
        match ev {
            UpstreamEvent::TextDelta(d) => {
                self.buffer.append(d.as_str());
                Some(OutwardEvent::Partial { text: self.buffer.clone() })
            },
            UpstreamEvent::TurnDone => {
                let had_text = !self.buffer.as_str().is_empty();
                let text = self.buffer.clone();
                self.buffer = String::new();
                if had_text {
                    Some(OutwardEvent::Final { text })
                } else {
                    None
                }
            },
            UpstreamEvent::Failure(p) => {
                self.buffer = String::new();
                Some(OutwardEvent::Error { data: p })
            },
            _ => None,
        }
    }
}

} // verus!
