//! Configuring a bot: handlers are registered in order, then built once
//! into tables that every session only reads.
use vstd::prelude::*;
use crate::dispatch::BotHandler;
use crate::handshake::HandshakeCallback;
use crate::keyword::{KeywordRuleBuilder, RouterError, automaton_builds};

verus! {

/// A configured bot: its handshake gate and its handler tables.
pub struct Bot<E, T, M> {
    pub handshake: HandshakeCallback,
    pub handler: BotHandler<E, T, M>,
}

impl<E, T, M> Bot<E, T, M> {
    pub open spec fn wf(&self) -> bool {
        self.handler.wf()
    }
}

/// The registrations of a bot, in order, before its tables are built.
pub struct BotBuilder<E, T, M> {
    access_token: String,
    entry_point: String,
    event_handler: Vec<E>,
    meta_handler: Vec<T>,
    message_handler: Vec<M>,
    keyword_handler: KeywordRuleBuilder<M>,
}

impl<E, T, M> BotBuilder<E, T, M> {
    pub closed spec fn access_token(&self) -> Seq<char> {
        self.access_token@
    }

    pub closed spec fn entry_point(&self) -> Seq<char> {
        self.entry_point@
    }

    pub closed spec fn event_handlers(&self) -> Seq<E> {
        self.event_handler@
    }

    pub closed spec fn meta_handlers(&self) -> Seq<T> {
        self.meta_handler@
    }

    pub closed spec fn message_handlers(&self) -> Seq<M> {
        self.message_handler@
    }

    pub closed spec fn keywords(&self) -> Seq<Seq<char>> {
        self.keyword_handler.keywords()
    }

    pub closed spec fn keyword_handlers(&self) -> Seq<M> {
        self.keyword_handler.handlers()
    }

    pub closed spec fn wf(&self) -> bool {
        self.keyword_handler.wf()
    }

    pub fn new(access_token: &str, entry_point: &str) -> (r: Self)
        ensures
            r.wf(),
            r.access_token() == access_token@,
            r.entry_point() == entry_point@,
            r.event_handlers() == Seq::<E>::empty(),
            r.meta_handlers() == Seq::<T>::empty(),
            r.message_handlers() == Seq::<M>::empty(),
            r.keywords() == Seq::<Seq<char>>::empty(),
            r.keyword_handlers() == Seq::<M>::empty(),
    {
        BotBuilder {
            access_token: access_token.to_owned(),
            entry_point: entry_point.to_owned(),
            event_handler: Vec::new(),
            meta_handler: Vec::new(),
            message_handler: Vec::new(),
            keyword_handler: KeywordRuleBuilder::new(),
        }
    }

    pub fn on_event(self, f: E) -> (r: Self)
        requires
            self.wf(),
        ensures
            r.wf(),
            r.event_handlers() == self.event_handlers().push(f),
            r.meta_handlers() == self.meta_handlers(),
            r.message_handlers() == self.message_handlers(),
            r.keywords() == self.keywords(),
            r.keyword_handlers() == self.keyword_handlers(),
            r.access_token() == self.access_token(),
            r.entry_point() == self.entry_point(),
    {
        let mut s = self;
        s.event_handler.push(f);
        s
    }

    pub fn on_meta(self, f: T) -> (r: Self)
        requires
            self.wf(),
        ensures
            r.wf(),
            r.event_handlers() == self.event_handlers(),
            r.meta_handlers() == self.meta_handlers().push(f),
            r.message_handlers() == self.message_handlers(),
            r.keywords() == self.keywords(),
            r.keyword_handlers() == self.keyword_handlers(),
            r.access_token() == self.access_token(),
            r.entry_point() == self.entry_point(),
    {
        let mut s = self;
        s.meta_handler.push(f);
        s
    }

    pub fn on_message(self, f: M) -> (r: Self)
        requires
            self.wf(),
        ensures
            r.wf(),
            r.event_handlers() == self.event_handlers(),
            r.meta_handlers() == self.meta_handlers(),
            r.message_handlers() == self.message_handlers().push(f),
            r.keywords() == self.keywords(),
            r.keyword_handlers() == self.keyword_handlers(),
            r.access_token() == self.access_token(),
            r.entry_point() == self.entry_point(),
    {
        let mut s = self;
        s.message_handler.push(f);
        s
    }

    pub fn on_keyword(self, keyword: &str, f: M) -> (r: Self)
        requires
            self.wf(),
        ensures
            r.wf(),
            r.event_handlers() == self.event_handlers(),
            r.meta_handlers() == self.meta_handlers(),
            r.message_handlers() == self.message_handlers(),
            r.keywords() == self.keywords().push(keyword@),
            r.keyword_handlers() == self.keyword_handlers().push(f),
            r.access_token() == self.access_token(),
            r.entry_point() == self.entry_point(),
    {
        let mut s = self;
        s.keyword_handler.insert(keyword, f);
        s
    }

    /// Builds the bot's tables once, compiling the keywords into one
    /// automaton; fails only where the keywords are over its size limits.
    pub fn build(self) -> (r: Result<Bot<E, T, M>, RouterError>)
        requires
            self.wf(),
        ensures
            r is Ok <==> automaton_builds(self.keywords()),
            r matches Ok(bot) ==> {
                &&& bot.wf()
                &&& bot.handshake.access_token() == self.access_token()
                &&& bot.handshake.entry_point() == self.entry_point()
                &&& bot.handler.event_handler@ == self.event_handlers()
                &&& bot.handler.meta_handler@ == self.meta_handlers()
                &&& bot.handler.message_handler@ == self.message_handlers()
                &&& bot.handler.keyword_handler.keywords() == self.keywords()
                &&& bot.handler.keyword_handler.handlers() == self.keyword_handlers()
            },
            r matches Err(e) ==> e == RouterError::TooLarge,
    {
        let handshake = HandshakeCallback::new(self.access_token.as_str(), self.entry_point.as_str());
        match self.keyword_handler.build() {
            Ok(keyword_handler) => Ok(
                Bot {
                    handshake,
                    handler: BotHandler {
                        event_handler: self.event_handler,
                        meta_handler: self.meta_handler,
                        message_handler: self.message_handler,
                        keyword_handler,
                    },
                },
            ),
            Err(e) => Err(e),
        }
    }
}

} // verus!
