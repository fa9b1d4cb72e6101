//! Admission of a new connection: the requested path must be the bot's
//! entry point, and the `Authorization` header must carry its bearer token.
use vstd::prelude::*;
use vstd::string::*;
use crate::json::text_is;

verus! {

#[derive(Clone, Copy, Debug, PartialEq, Eq, Structural)]
pub enum Verdict {
    Accept,
    /// No such entry point.
    NotFound,
    /// The bearer token is missing or wrong.
    Forbidden,
}

pub struct HandshakeCallback {
    access_token: String,
    entry_point: String,
}

/// The token that an `Authorization` header carries: what follows
/// `Bearer `, or nothing where the header is absent or has another form.
pub open spec fn bearer_token(header: Option<Seq<char>>) -> Seq<char> {
    match header {
        Some(h) => if h.len() >= 7 && h.subrange(0, 7) == "Bearer "@ {
            h.subrange(7, h.len() as int)
        } else {
            Seq::empty()
        },
        None => Seq::empty(),
    }
}

/// The verdict on a request for `path` with the `Authorization` header
/// `header`.
pub open spec fn verdict(token: Seq<char>, entry: Seq<char>, path: Seq<char>, header: Option<Seq<char>>) -> Verdict {
    if path != entry {
        Verdict::NotFound
    } else if bearer_token(header) == token {
        Verdict::Accept
    } else {
        Verdict::Forbidden
    }
}

pub open spec fn opt_str_view(o: Option<&str>) -> Option<Seq<char>> {
    match o {
        Some(s) => Some(s@),
        None => None,
    }
}

impl HandshakeCallback {
    pub closed spec fn access_token(&self) -> Seq<char> {
        self.access_token@
    }

    pub closed spec fn entry_point(&self) -> Seq<char> {
        self.entry_point@
    }

    pub fn new(access_token: &str, entry_point: &str) -> (r: Self)
        ensures
            r.access_token() == access_token@,
            r.entry_point() == entry_point@,
    {
        HandshakeCallback { access_token: access_token.to_owned(), entry_point: entry_point.to_owned() }
    }

    /// Decides on a request for `path` whose `Authorization` header is
    /// `authorization`.
    pub fn check(&self, path: &str, authorization: Option<&str>) -> (r: Verdict)
        ensures
            r == verdict(self.access_token(), self.entry_point(), path@, opt_str_view(authorization)),
    {
        if !text_is(&self.entry_point, path) {
            return Verdict::NotFound;
        }
        let token = match authorization {
            Some(h) => {
                let n = h.unicode_len();
                if n >= 7 && text_is(&h.substring_char(0, 7).to_owned(), "Bearer ") {
                    h.substring_char(7, n).to_owned()
                } else {
                    String::new()
                }
            },
            None => String::new(),
        };
        proof {
            assert(token@ == bearer_token(opt_str_view(authorization)));
        }
        if text_is(&self.access_token, token.as_str()) {
            Verdict::Accept
        } else {
            Verdict::Forbidden
        }
    }
}

} // verus!
