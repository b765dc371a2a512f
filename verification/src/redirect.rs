//! The redirect-following fetch, as a state machine over plain values.
//!
//! The machine records the chain of URIs visited so far. The surrounding
//! process issues one GET per chain entry and feeds each response's status
//! and `Location` header back through [`RedirectFetch::on_response`]; the
//! machine answers with the next step: follow a further URI, hand the
//! terminal response to the caller, or fail because a `Location` did not
//! parse. No status-code validation happens here — any non-redirect status
//! is terminal and its body is the result.

use vstd::prelude::*;
use vstd::string::*;

use crate::uri::{uri_authority, uri_ok, uri_text, uri_view, UriParts};

verus! {

/// One visited URI at the specification level: canonical text and authority.
pub type UriView = (Seq<char>, Option<Seq<char>>);

/// The HTTP statuses followed transparently: 301, 302, 303, 307 and 308.
pub open spec fn spec_is_redirect(status: u16) -> bool {
    status == 301 || status == 302 || status == 303 || status == 307 || status == 308
}

/// Whether `status` is one of the redirect statuses.
pub fn is_redirect(status: u16) -> (b: bool)
    ensures
        b == spec_is_redirect(status),
{
    status == 301 || status == 302 || status == 303 || status == 307 || status == 308
}

/// The `Location` header's text; a missing header counts as the empty
/// string, which no URI parse accepts.
pub open spec fn spec_location_text(location: Option<String>) -> Seq<char> {
    match location {
        Some(l) => l@,
        None => Seq::empty(),
    }
}

/// The string whose parse is followed next: the `Location` itself when its
/// parse carries an authority or when the previous request's URI has none;
/// otherwise the previous request's authority prepended to the parsed
/// `Location`'s text.
pub open spec fn spec_target(urls: Seq<UriView>, loc: Seq<char>) -> Seq<char>
    recommends
        urls.len() >= 1,
{
    if uri_authority(loc) is Some || urls.last().1 is None {
        loc
    } else {
        urls.last().1->0 + uri_text(loc)
    }
}

/// What the machine answers for one response.
#[derive(Clone, Copy, Debug, PartialEq, Eq, Structural)]
pub enum RedirectStep {
    /// The response redirects and its target parsed: issue a GET to the URI
    /// now at the end of the chain.
    Follow,
    /// The response is terminal: hand its body to the caller as-is.
    Done,
    /// The `Location` (or the resolved target) did not parse: the fetch
    /// fails with a URI-parse error.
    Failed,
}

/// The decision for one response, at the specification level.
pub open spec fn spec_decision(urls: Seq<UriView>, status: u16, loc: Seq<char>) -> RedirectStep {
    if !spec_is_redirect(status) {
        RedirectStep::Done
    } else if uri_ok(loc) && uri_ok(spec_target(urls, loc)) {
        RedirectStep::Follow
    } else {
        RedirectStep::Failed
    }
}

/// The chain after one response: one URI longer on a follow, unchanged
/// otherwise.
pub open spec fn spec_step(urls: Seq<UriView>, status: u16, loc: Seq<char>) -> Seq<UriView> {
    if spec_decision(urls, status, loc) is Follow {
        urls.push(
            (uri_text(spec_target(urls, loc)), uri_authority(spec_target(urls, loc))),
        )
    } else {
        urls
    }
}

/// The chain after a whole sequence of responses.
pub open spec fn spec_run(urls: Seq<UriView>, events: Seq<(u16, Seq<char>)>) -> Seq<UriView>
    decreases events.len(),
{
    if events.len() == 0 {
        urls
    } else {
        spec_run(spec_step(urls, events[0].0, events[0].1), events.drop_first())
    }
}

/// One redirect-following fetch in progress: the URIs requested so far, in
/// chain order. The first entry is the original request; each later entry
/// was issued because the response before it redirected there.
pub struct RedirectFetch {
    pub urls: Vec<UriParts>,
}

impl RedirectFetch {
    /// The chain of visited URIs, as views.
    pub open spec fn chain(self) -> Seq<UriView> {
        self.urls@.map_values(|p: UriParts| uri_view(p))
    }

    /// A fetch always has at least its original URI in the chain.
    pub open spec fn wf(self) -> bool {
        self.chain().len() >= 1
    }

    /// One GET is issued per chain entry, in chain order.
    pub open spec fn requests_issued(self) -> nat {
        self.chain().len()
    }

    /// Starts a fetch of `uri`: the chain holds that URI alone, and the one
    /// request issued so far is to it.
    pub fn new(uri: UriParts) -> (r: RedirectFetch)
        ensures
            r.wf(),
            r.chain() == seq![uri_view(uri)],
            r.requests_issued() == 1,
    {
        let ghost v = uri_view(uri);
        let r = RedirectFetch { urls: vec![uri] };
        proof {
            assert(r.chain() =~= seq![v]);
        }
        r
    }

    /// The URI the next (or current) request goes to: the end of the chain.
    pub fn last_uri(&self) -> (r: &UriParts)
        requires
            self.wf(),
        ensures
            uri_view(*r) == self.chain().last(),
    {
        &self.urls[self.urls.len() - 1]
    }

    /// Feeds one response's status and `Location` header to the machine.
    ///
    /// A non-redirect status is terminal and leaves the chain unchanged. A
    /// redirect whose target parses extends the chain by exactly that
    /// target, resolving a relative `Location` against the authority of the
    /// immediately preceding request; a target that does not parse fails
    /// the fetch and leaves the chain unchanged.
    pub fn on_response(&mut self, status: u16, location: Option<String>) -> (step: RedirectStep)
        requires
            old(self).wf(),
        ensures
            final(self).wf(),
            step == spec_decision(old(self).chain(), status, spec_location_text(location)),
            final(self).chain() == spec_step(
                old(self).chain(),
                status,
                spec_location_text(location),
            ),
            step is Follow ==> final(self).requests_issued() == old(self).requests_issued() + 1,
            !(step is Follow) ==> final(self).requests_issued() == old(self).requests_issued(),
    {
        let ghost pre = self.chain();
        let ghost loc_spec = spec_location_text(location);
        if !is_redirect(status) {
            return RedirectStep::Done;
        }
        let loc: &str = match &location {
            Some(l) => l.as_str(),
            None => "",
        };
        proof {
            reveal_strlit("");
            assert(loc@ =~= loc_spec);
        }
        match crate::uri::parse_uri(loc) {
            None => RedirectStep::Failed,
            Some(u) => {
                let follow: UriParts;
                if u.authority.is_some() {
                    follow = u;
                } else {
                    let n = self.urls.len();
                    let prev_authority = match &self.urls[n - 1].authority {
                        None => None,
                        Some(a) => Some(a.clone()),
                    };
                    proof {
                        assert(pre.last() == uri_view(self.urls@[n - 1 as int]));
                    }
                    match prev_authority {
                        None => {
                            follow = u;
                        },
                        Some(a) => {
                            let mut resolved = a;
                            resolved.append(u.text.as_str());
                            proof {
                                assert(resolved@ == spec_target(pre, loc_spec));
                            }
                            match crate::uri::parse_uri(resolved.as_str()) {
                                None => {
                                    return RedirectStep::Failed;
                                },
                                Some(v) => {
                                    follow = v;
                                },
                            }
                        },
                    }
                }
                proof {
                    assert(uri_view(follow) == (
                        uri_text(spec_target(pre, loc_spec)),
                        uri_authority(spec_target(pre, loc_spec)),
                    ));
                }
                self.urls.push(follow);
                proof {
                    assert(self.chain() =~= spec_step(pre, status, loc_spec));
                }
                RedirectStep::Follow
            },
        }
    }
}

/// Over a chain of followed redirects the machine issues exactly one request
/// per hop: when every response in `events` is a redirect the machine
/// follows, the chain grows by exactly one URI per response.
pub proof fn lemma_chain_growth(urls: Seq<UriView>, events: Seq<(u16, Seq<char>)>)
    requires
        urls.len() >= 1,
        forall|i: int|
            0 <= i < events.len() ==> spec_decision(
                spec_run(urls, events.take(i)),
                events[i].0,
                events[i].1,
            ) is Follow,
    ensures
        spec_run(urls, events).len() == urls.len() + events.len(),
    decreases events.len(),
{
    if events.len() > 0 {
        assert(events.take(0) =~= Seq::<(u16, Seq<char>)>::empty());
        assert(spec_decision(urls, events[0].0, events[0].1) is Follow);
        let urls1 = spec_step(urls, events[0].0, events[0].1);
        let rest = events.drop_first();
        assert forall|i: int| 0 <= i < rest.len() implies spec_decision(
            spec_run(urls1, rest.take(i)),
            rest[i].0,
            rest[i].1,
        ) is Follow by {
            assert(events.take(i + 1).drop_first() =~= rest.take(i));
            assert(events.take(i + 1).len() != 0);
            assert(events.take(i + 1)[0] == events[0]);
            assert(spec_run(urls, events.take(i + 1)) == spec_run(urls1, rest.take(i)));
            assert(spec_decision(
                spec_run(urls, events.take(i + 1)),
                events[i + 1].0,
                events[i + 1].1,
            ) is Follow);
            assert(rest[i] == events[i + 1]);
        }
        lemma_chain_growth(urls1, rest);
    }
}

/// A chain of `n` followed redirects with a terminal non-redirect response
/// issues exactly `n + 1` requests — the initial one plus one per redirect —
/// and the terminal response is handed back as-is, with the chain unchanged.
pub proof fn lemma_terminal_chain(
    urls: Seq<UriView>,
    events: Seq<(u16, Seq<char>)>,
    status: u16,
    loc: Seq<char>,
)
    requires
        urls.len() == 1,
        forall|i: int|
            0 <= i < events.len() ==> spec_decision(
                spec_run(urls, events.take(i)),
                events[i].0,
                events[i].1,
            ) is Follow,
        !spec_is_redirect(status),
    ensures
        spec_run(urls, events).len() == 1 + events.len(),
        spec_decision(spec_run(urls, events), status, loc) is Done,
        spec_step(spec_run(urls, events), status, loc) == spec_run(urls, events),
{
    lemma_chain_growth(urls, events);
}

/// A relative `Location` — one whose parse carries no authority — resolves
/// against the authority of the immediately preceding request in the chain,
/// never against the first request's.
pub proof fn lemma_relative_location_resolution(urls: Seq<UriView>, loc: Seq<char>)
    requires
        urls.len() >= 1,
        uri_authority(loc) is None,
        urls.last().1 is Some,
    ensures
        spec_target(urls, loc) == urls.last().1->0 + uri_text(loc),
{
}

} // verus!
