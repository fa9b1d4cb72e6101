//! The dispatch engine: which handlers an event reaches, in which order,
//! and with which contexts.
use vstd::prelude::*;
use crate::context::{MessageContext, Sequence, issued};
use crate::event::{Event, EventInfo, MessageEvent};
use crate::keyword::{KeywordRule, leftmost_first};

verus! {

/// One handler invocation, by the handler's place in its table.
#[derive(Clone, Copy, Debug, PartialEq, Eq, Structural)]
pub enum Invocation {
    /// A global event handler.
    Event(usize),
    /// A message handler, with a fresh context.
    Message(usize, MessageContext),
    /// The keyword handler that the message's text selects.
    Keyword(usize, MessageContext),
    /// A meta event handler.
    Meta(usize),
}

/// The handler tables of a bot: built once, then only read.
pub struct BotHandler<E, T, M> {
    pub event_handler: Vec<E>,
    pub meta_handler: Vec<T>,
    pub message_handler: Vec<M>,
    pub keyword_handler: KeywordRule<M>,
}

/// The display text of a message.
pub open spec fn message_text(e: MessageEvent) -> Seq<char> {
    match e {
        MessageEvent::Private { message, .. } => message@,
        MessageEvent::Group { message, .. } => message@,
    }
}

/// The context of an invocation for the message `e`, under the id `id`.
pub open spec fn context_of(e: MessageEvent, id: int) -> MessageContext {
    match e {
        MessageEvent::Private { user_id, .. } => MessageContext {
            user_id,
            group_id: None,
            sequence_number: id as usize,
        },
        MessageEvent::Group { user_id, group_id, .. } => MessageContext {
            user_id,
            group_id: Some(group_id),
            sequence_number: id as usize,
        },
    }
}

/// How many correlation ids dispatching `event` takes.
pub open spec fn ids_needed(n_message: nat, event: Event, keyword: Option<usize>) -> nat {
    match event {
        Event::Message { .. } => n_message + if keyword is Some { 1nat } else { 0nat },
        _ => 0,
    }
}

/// The invocations for `event`, in order: every global handler; then, for a
/// message, every message handler and the keyword handler `keyword` if one
/// was selected, each with its own id counted up from `first_id`; for a meta
/// event, every meta handler. Notices and requests reach the global
/// handlers alone.
pub open spec fn dispatch_order(
    n_event: nat,
    n_message: nat,
    n_meta: nat,
    event: Event,
    keyword: Option<usize>,
    first_id: int,
) -> Seq<Invocation> {
    Seq::new(n_event, |i: int| Invocation::Event(i as usize)) + match event {
        Event::Message { event: e, .. } => Seq::new(
            n_message,
            |i: int| Invocation::Message(i as usize, context_of(e, first_id + i)),
        ) + match keyword {
            Some(k) => seq![Invocation::Keyword(k, context_of(e, first_id + n_message))],
            None => Seq::<Invocation>::empty(),
        },
        Event::MetaEvent { .. } => Seq::new(n_meta, |i: int| Invocation::Meta(i as usize)),
        _ => Seq::<Invocation>::empty(),
    }
}

/// The keyword handler that `event` selects among `keywords`: `keyword` is
/// the leftmost-first match in a message's text, and `None` for any other
/// event.
pub open spec fn selects(keywords: Seq<Seq<char>>, event: Event, keyword: Option<usize>) -> bool {
    match event {
        Event::Message { event: e, .. } => leftmost_first(keywords, message_text(e), keyword),
        _ => keyword is None,
    }
}

/// `r` is what planning `event` gives under the selected `keyword`, with
/// the id source at `before` beforehand and at `after` afterwards.
pub open spec fn planned(
    n_event: nat,
    n_message: nat,
    n_meta: nat,
    event: Event,
    keyword: Option<usize>,
    before: nat,
    after: nat,
    r: Result<Vec<Invocation>, DispatchError>,
) -> bool {
    if before + ids_needed(n_message, event, keyword) <= usize::MAX {
        &&& r matches Ok(v) && v@ == dispatch_order(
            n_event,
            n_message,
            n_meta,
            event,
            keyword,
            before as int,
        )
        &&& after == before + ids_needed(n_message, event, keyword)
    } else {
        &&& r == Err::<Vec<Invocation>, DispatchError>(DispatchError::IdsExhausted)
        &&& after == before
    }
}

/// For a private message with one global handler, one message handler and
/// one keyword handler whose keyword matches, the global handler runs
/// first, then the message handler, then the keyword handler, each with its
/// own correlation id.
pub proof fn global_then_message_then_keyword(
    info: EventInfo,
    e: MessageEvent,
    n_meta: nat,
    k: usize,
    first_id: int,
)
    requires
        e is Private,
    ensures
        dispatch_order(1, 1, n_meta, Event::Message { info, event: e }, Some(k), first_id) == seq![
            Invocation::Event(0),
            Invocation::Message(0, context_of(e, first_id)),
            Invocation::Keyword(k, context_of(e, first_id + 1)),
        ],
{
    assert(dispatch_order(1, 1, n_meta, Event::Message { info, event: e }, Some(k), first_id) =~= seq![
        Invocation::Event(0),
        Invocation::Message(0, context_of(e, first_id)),
        Invocation::Keyword(k, context_of(e, first_id + 1)),
    ]);
}

/// The context that invocation `v` carries, where it is message-scoped.
pub open spec fn minted(v: Invocation) -> Option<MessageContext> {
    match v {
        Invocation::Message(_, c) => Some(c),
        Invocation::Keyword(_, c) => Some(c),
        _ => None,
    }
}

/// The context at place `i` of a dispatch carries the id
/// `first_id + i - n_event`, inside the block the dispatch reserves.
proof fn minted_id(
    n_event: nat,
    n_message: nat,
    n_meta: nat,
    event: Event,
    keyword: Option<usize>,
    first_id: int,
    i: int,
)
    requires
        0 <= first_id,
        first_id + ids_needed(n_message, event, keyword) <= usize::MAX,
        0 <= i < dispatch_order(n_event, n_message, n_meta, event, keyword, first_id).len(),
        minted(dispatch_order(n_event, n_message, n_meta, event, keyword, first_id)[i]) is Some,
    ensures
        n_event <= i,
        minted(dispatch_order(n_event, n_message, n_meta, event, keyword, first_id)[i])->Some_0.sequence_number
            == first_id + i - n_event,
        i - n_event < ids_needed(n_message, event, keyword),
{
    let v = dispatch_order(n_event, n_message, n_meta, event, keyword, first_id);
    let globals = Seq::new(n_event, |k: int| Invocation::Event(k as usize));
    match event {
        Event::Message { event: e, .. } => {
            let messages = Seq::new(
                n_message,
                |k: int| Invocation::Message(k as usize, context_of(e, first_id + k)),
            );
            let tail = match keyword {
                Some(k) => seq![Invocation::Keyword(k, context_of(e, first_id + n_message))],
                None => Seq::<Invocation>::empty(),
            };
            assert(v == globals + (messages + tail));
            if i < n_event {
                assert(v[i] == globals[i]);
            } else {
                assert(v[i] == (messages + tail)[i - n_event]);
                if i - n_event < n_message {
                    assert((messages + tail)[i - n_event] == messages[i - n_event]);
                } else {
                    assert((messages + tail)[i - n_event] == tail[i - n_event - n_message]);
                }
            }
        },
        Event::MetaEvent { .. } => {
            let metas = Seq::new(n_meta, |k: int| Invocation::Meta(k as usize));
            assert(v == globals + metas);
            if i < n_event {
                assert(v[i] == globals[i]);
            } else {
                assert(v[i] == metas[i - n_event]);
            }
        },
        _ => {
            assert(v == globals + Seq::<Invocation>::empty());
            assert(v[i] == globals[i]);
        },
    }
}

/// Within one dispatch, the contexts are minted in invocation order with
/// strictly increasing correlation ids, all drawn from the block
/// `[first_id, first_id + ids_needed)` that the dispatch reserves.
pub proof fn dispatch_ids_increase(
    n_event: nat,
    n_message: nat,
    n_meta: nat,
    event: Event,
    keyword: Option<usize>,
    first_id: int,
    i: int,
    j: int,
)
    requires
        0 <= first_id,
        first_id + ids_needed(n_message, event, keyword) <= usize::MAX,
        0 <= i < j < dispatch_order(n_event, n_message, n_meta, event, keyword, first_id).len(),
        minted(dispatch_order(n_event, n_message, n_meta, event, keyword, first_id)[i]) is Some,
        minted(dispatch_order(n_event, n_message, n_meta, event, keyword, first_id)[j]) is Some,
    ensures
        ({
            let v = dispatch_order(n_event, n_message, n_meta, event, keyword, first_id);
            let a = minted(v[i])->Some_0.sequence_number as int;
            let b = minted(v[j])->Some_0.sequence_number as int;
            first_id <= a < b < first_id + ids_needed(n_message, event, keyword)
        }),
{
    minted_id(n_event, n_message, n_meta, event, keyword, first_id, i);
    minted_id(n_event, n_message, n_meta, event, keyword, first_id, j);
}

/// Of two dispatches planned one after the other by one bot, on the same
/// session or on different ones, every context of the second carries a
/// higher correlation id than every context of the first.
pub proof fn successive_dispatches_increase(
    n_event: nat,
    n_message: nat,
    n_meta: nat,
    e1: Event,
    k1: Option<usize>,
    e2: Event,
    k2: Option<usize>,
    s0: nat,
    s1: nat,
    s2: nat,
    v1: Vec<Invocation>,
    v2: Vec<Invocation>,
    i: int,
    j: int,
)
    requires
        planned(n_event, n_message, n_meta, e1, k1, s0, s1, Ok(v1)),
        planned(n_event, n_message, n_meta, e2, k2, s1, s2, Ok(v2)),
        0 <= i < v1@.len(),
        0 <= j < v2@.len(),
        minted(v1@[i]) is Some,
        minted(v2@[j]) is Some,
    ensures
        minted(v1@[i])->Some_0.sequence_number < minted(v2@[j])->Some_0.sequence_number,
{
    minted_id(n_event, n_message, n_meta, e1, k1, s0 as int, i);
    minted_id(n_event, n_message, n_meta, e2, k2, s1 as int, j);
}

/// Dispatching found no correlation id left to issue.
#[derive(Clone, Copy, Debug, PartialEq, Eq, Structural)]
pub enum DispatchError {
    IdsExhausted,
}

impl<E, T, M> BotHandler<E, T, M> {
    pub open spec fn wf(&self) -> bool {
        self.keyword_handler.wf()
    }

    fn message_context(e: &MessageEvent, id: usize) -> (r: MessageContext)
        ensures
            r == context_of(*e, id as int),
    {
        match e {
            MessageEvent::Private { user_id, .. } => MessageContext::new(*user_id, None, id),
            MessageEvent::Group { user_id, group_id, .. } => MessageContext::new(
                *user_id,
                Some(*group_id),
                id,
            ),
        }
    }

    /// Appends to `out` the message-scoped invocations for `e`, where
    /// `keyword` is the keyword handler that `e` selects.
    fn plan_message(
        &self,
        e: &MessageEvent,
        keyword: Option<usize>,
        ids: &mut Sequence,
        out: Vec<Invocation>,
    ) -> (r: Result<Vec<Invocation>, DispatchError>)
        ensures
            if old(ids).next_id() + self.message_handler@.len() + (if keyword is Some {
                1nat
            } else {
                0nat
            }) <= usize::MAX {
                &&& r matches Ok(v) && v@ == out@ + Seq::new(
                    self.message_handler@.len(),
                    |i: int| Invocation::Message(i as usize, context_of(*e, old(ids).next_id() + i)),
                ) + match keyword {
                    Some(k) => seq![
                        Invocation::Keyword(
                            k,
                            context_of(*e, (old(ids).next_id() + self.message_handler@.len()) as int),
                        ),
                    ],
                    None => Seq::<Invocation>::empty(),
                }
                &&& final(ids).next_id() == old(ids).next_id() + self.message_handler@.len() + (
                if keyword is Some {
                    1nat
                } else {
                    0nat
                })
            } else {
                &&& r == Err::<Vec<Invocation>, DispatchError>(DispatchError::IdsExhausted)
                &&& final(ids).next_id() == old(ids).next_id()
            },
    {
        let ghost first = ids.next_id();
        let ghost base = out@;
        let mut out = out;
        let n_message = self.message_handler.len();
        let needed: usize = if keyword.is_some() { 1 } else { 0 };
        let block = if n_message <= usize::MAX - needed {
            ids.reserve(n_message + needed)
        } else {
            None
        };
        match block {
            None => Err(DispatchError::IdsExhausted),
            Some(start) => {
                for i in 0..n_message
                    invariant
                        start == first,
                        first + n_message + needed <= usize::MAX,
                        out@ == base + Seq::new(
                            i as nat,
                            |j: int| Invocation::Message(j as usize, context_of(*e, first + j)),
                        ),
                {
                    out.push(Invocation::Message(i, Self::message_context(e, start + i)));
                    assert(out@ =~= base + Seq::new(
                        (i + 1) as nat,
                        |j: int| Invocation::Message(j as usize, context_of(*e, first + j)),
                    ));
                }
                let ghost messages = out@;
                match keyword {
                    Some(k) => {
                        out.push(Invocation::Keyword(k, Self::message_context(e, start + n_message)));
                        assert(out@ =~= messages + seq![
                            Invocation::Keyword(k, context_of(*e, first + n_message)),
                        ]);
                    },
                    None => {
                        assert(out@ =~= messages + Seq::<Invocation>::empty());
                    },
                }
                Ok(out)
            },
        }
    }

    /// The invocations that `event` calls for, in the order in which they
    /// must run one after the other. Each message-scoped invocation draws a
    /// fresh id from `ids`. Fails, drawing nothing, where `ids` has too few
    /// left.
    pub fn plan(&self, event: &Event, ids: &mut Sequence) -> (r: Result<Vec<Invocation>, DispatchError>)
        requires
            self.wf(),
        ensures
            exists|keyword: Option<usize>|
                #[trigger] selects(self.keyword_handler.keywords(), *event, keyword) && planned(
                    self.event_handler@.len(),
                    self.message_handler@.len(),
                    self.meta_handler@.len(),
                    *event,
                    keyword,
                    old(ids).next_id(),
                    final(ids).next_id(),
                    r,
                ),
    {
        let ghost first = ids.next_id();
        proof {
            ids.next_id_bounded();
        }
        let mut out: Vec<Invocation> = Vec::new();
        let n_event = self.event_handler.len();
        for i in 0..n_event
            invariant
                out@ == Seq::new(i as nat, |j: int| Invocation::Event(j as usize)),
        {
            out.push(Invocation::Event(i));
            assert(out@ =~= Seq::new((i + 1) as nat, |j: int| Invocation::Event(j as usize)));
        }
        let ghost globals = out@;
        match event {
            Event::Message { event: e, .. } => {
                let text = match e {
                    MessageEvent::Private { message, .. } => message,
                    MessageEvent::Group { message, .. } => message,
                };
                let keyword = self.keyword_handler.find_index(text.as_str());
                assert(selects(self.keyword_handler.keywords(), *event, keyword));
                let r = self.plan_message(e, keyword, ids, out);
                proof {
                    if r is Ok {
                        assert(r->Ok_0@ =~= dispatch_order(
                            self.event_handler@.len(),
                            self.message_handler@.len(),
                            self.meta_handler@.len(),
                            *event,
                            keyword,
                            first as int,
                        ));
                    }
                }
                r
            },
            Event::MetaEvent { .. } => {
                let n_meta = self.meta_handler.len();
                for i in 0..n_meta
                    invariant
                        out@ == globals + Seq::new(i as nat, |j: int| Invocation::Meta(j as usize)),
                {
                    out.push(Invocation::Meta(i));
                    assert(out@ =~= globals + Seq::new(
                        (i + 1) as nat,
                        |j: int| Invocation::Meta(j as usize),
                    ));
                }
                assert(selects(self.keyword_handler.keywords(), *event, None));
                assert(out@ =~= dispatch_order(
                    self.event_handler@.len(),
                    self.message_handler@.len(),
                    self.meta_handler@.len(),
                    *event,
                    None,
                    first as int,
                ));
                Ok(out)
            },
            _ => {
                assert(selects(self.keyword_handler.keywords(), *event, None));
                assert(out@ =~= dispatch_order(
                    self.event_handler@.len(),
                    self.message_handler@.len(),
                    self.meta_handler@.len(),
                    *event,
                    None,
                    first as int,
                ));
                Ok(out)
            },
        }
    }
}

} // verus!
