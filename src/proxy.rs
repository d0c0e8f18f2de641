use vstd::prelude::*;

use crate::config::{Address, RouteConfig};
use crate::forward::ForwardError;
use crate::routing::{find_route, first_match, is_first_match, lemma_first_match_is, route_accepts};
use crate::translate::{lemma_upstream_url_parts, upstream_url_of, TranslateError};

verus! {

/// Where the handling of one inbound request stands.
#[derive(Debug, Clone, Copy, PartialEq, Eq, Structural)]
pub enum Stage {
    /// Accepted by the listener; not matched yet.
    Received,
    /// Matched to the route at this index; the upstream request is being built.
    Translating { route: usize },
    /// The upstream request for the route at this index is under way.
    Forwarding { route: usize },
    /// The upstream answered; its body is being relayed to the client.
    Streaming,
    /// Terminal: no route matched.
    Respond404,
    /// Terminal: translation or forwarding failed.
    Respond5xx { status: u16 },
    /// Terminal: the stream ended, or the client went away.
    Done,
}

/// What is recorded of a request that ended with an error response.
#[derive(Debug, Clone, Copy, PartialEq, Eq, Structural)]
pub enum Outcome {
    NotFound,
    TranslationFailed(TranslateError),
    ForwardFailed(ForwardError),
}

/// What happened outside the core that concerns the request.
#[derive(Debug)]
pub enum Event {
    /// The request arrived for this host and path.
    Arrived(Address),
    /// Translation into an upstream request finished.
    Translated(Result<(), TranslateError>),
    /// The single upstream attempt finished.
    Forwarded(Result<(), ForwardError>),
    /// Bytes of the upstream response body, in order.
    UpstreamChunk(Vec<u8>),
    /// The upstream response body is complete.
    UpstreamEnded,
    /// Reading the upstream response body failed part way.
    UpstreamFailed,
    /// The client closed its connection.
    ClientGone,
}

/// What the caller is to do next.
#[derive(Debug)]
pub enum Action {
    /// Build the upstream request toward the target of the route at this index.
    Translate { route: usize },
    /// Send the upstream request, once.
    Send,
    /// Answer the client with the upstream's status, version and headers.
    StartStream,
    /// Write these bytes to the client, as they are.
    Relay(Vec<u8>),
    /// Answer the client with this status and an empty body; record the outcome.
    Reply { status: u16, outcome: Outcome },
    /// The response is complete.
    Finish,
    /// Close the upstream connection and stop relaying; the response to the
    /// client is cut short.
    AbortUpstream,
    /// The event does not concern this stage.
    Ignore,
}

pub open spec fn status_of(o: Outcome) -> u16 {
    match o {
        Outcome::NotFound => 404,
        Outcome::TranslationFailed(_) => 500,
        Outcome::ForwardFailed(_) => 502,
    }
}

pub open spec fn is_terminal(s: Stage) -> bool {
    s is Respond404 || s is Respond5xx || s is Done
}

/// The transition taken from `stage` on `event`, over the route table `routes`.
pub open spec fn next(routes: Seq<RouteConfig>, stage: Stage, event: Event) -> (Stage, Action) {
    if is_terminal(stage) {
        (stage, Action::Ignore)
    } else {
        match event {
            Event::ClientGone => (Stage::Done, Action::AbortUpstream),
            Event::Arrived(addr) => match stage {
                Stage::Received => match first_match(routes, addr.host@, addr.path@) {
                    Some(i) => (Stage::Translating { route: i as usize }, Action::Translate { route: i as usize }),
                    None => (Stage::Respond404, Action::Reply { status: 404, outcome: Outcome::NotFound }),
                },
                _ => (stage, Action::Ignore),
            },
            Event::Translated(res) => match stage {
                Stage::Translating { route } => match res {
                    Ok(()) => (Stage::Forwarding { route }, Action::Send),
                    Err(e) => (
                        Stage::Respond5xx { status: 500 },
                        Action::Reply { status: 500, outcome: Outcome::TranslationFailed(e) },
                    ),
                },
                _ => (stage, Action::Ignore),
            },
            Event::Forwarded(res) => match stage {
                Stage::Forwarding { .. } => match res {
                    Ok(()) => (Stage::Streaming, Action::StartStream),
                    Err(e) => (
                        Stage::Respond5xx { status: 502 },
                        Action::Reply { status: 502, outcome: Outcome::ForwardFailed(e) },
                    ),
                },
                _ => (stage, Action::Ignore),
            },
            Event::UpstreamChunk(bytes) => match stage {
                Stage::Streaming => (Stage::Streaming, Action::Relay(bytes)),
                _ => (stage, Action::Ignore),
            },
            Event::UpstreamEnded => match stage {
                Stage::Streaming => (Stage::Done, Action::Finish),
                _ => (stage, Action::Ignore),
            },
            Event::UpstreamFailed => match stage {
                Stage::Streaming => (Stage::Done, Action::AbortUpstream),
                _ => (stage, Action::Ignore),
            },
        }
    }
}

/// The HTTP status that answers a request that ended with `outcome`.
pub fn status_for(outcome: Outcome) -> (r: u16)
    ensures
        r == status_of(outcome),
{
    match outcome {
        Outcome::NotFound => 404,
        Outcome::TranslationFailed(_) => 500,
        Outcome::ForwardFailed(_) => 502,
    }
}

/// Advances the handling of one request by one event.
pub fn step(routes: &Vec<RouteConfig>, stage: Stage, event: Event) -> (r: (Stage, Action))
    ensures
        r == next(routes@, stage, event),
{
    match stage {
        Stage::Respond404 | Stage::Respond5xx { .. } | Stage::Done => {
            return (stage, Action::Ignore);
        },
        _ => {},
    }
    match event {
        Event::ClientGone => (Stage::Done, Action::AbortUpstream),
        Event::Arrived(addr) => match stage {
            Stage::Received => {
                let found = find_route(routes, &addr);
                proof {
                    lemma_first_match_is(
                        routes@,
                        addr.host@,
                        addr.path@,
                        crate::routing::as_int(found),
                    );
                }
                match found {
                    Some(i) => (Stage::Translating { route: i }, Action::Translate { route: i }),
                    None => (
                        Stage::Respond404,
                        Action::Reply { status: 404, outcome: Outcome::NotFound },
                    ),
                }
            },
            _ => (stage, Action::Ignore),
        },
        Event::Translated(res) => match stage {
            Stage::Translating { route } => match res {
                Ok(()) => (Stage::Forwarding { route }, Action::Send),
                Err(e) => (
                    Stage::Respond5xx { status: 500 },
                    Action::Reply { status: 500, outcome: Outcome::TranslationFailed(e) },
                ),
            },
            _ => (stage, Action::Ignore),
        },
        Event::Forwarded(res) => match stage {
            Stage::Forwarding { .. } => match res {
                Ok(()) => (Stage::Streaming, Action::StartStream),
                Err(e) => (
                    Stage::Respond5xx { status: 502 },
                    Action::Reply { status: 502, outcome: Outcome::ForwardFailed(e) },
                ),
            },
            _ => (stage, Action::Ignore),
        },
        Event::UpstreamChunk(bytes) => match stage {
            Stage::Streaming => (Stage::Streaming, Action::Relay(bytes)),
            _ => (stage, Action::Ignore),
        },
        Event::UpstreamEnded => match stage {
            Stage::Streaming => (Stage::Done, Action::Finish),
            _ => (stage, Action::Ignore),
        },
        Event::UpstreamFailed => match stage {
            Stage::Streaming => (Stage::Done, Action::AbortUpstream),
            _ => (stage, Action::Ignore),
        },
    }
}

/// The stage reached and the actions issued when `events` arrive in order,
/// starting from `stage`.
pub open spec fn run(routes: Seq<RouteConfig>, stage: Stage, events: Seq<Event>) -> (Stage, Seq<Action>)
    decreases events.len(),
{
    if events.len() == 0 {
        (stage, Seq::empty())
    } else {
        let (s1, a1) = next(routes, stage, events[0]);
        let (s2, rest) = run(routes, s1, events.drop_first());
        (s2, seq![a1] + rest)
    }
}

/// The bytes written to the client by `actions`, in order.
pub open spec fn relayed(actions: Seq<Action>) -> Seq<u8>
    decreases actions.len(),
{
    if actions.len() == 0 {
        Seq::empty()
    } else {
        let head = match actions[0] {
            Action::Relay(bytes) => bytes@,
            _ => Seq::empty(),
        };
        head + relayed(actions.drop_first())
    }
}

/// The upstream body bytes carried by `events`, in order.
pub open spec fn received(events: Seq<Event>) -> Seq<u8>
    decreases events.len(),
{
    if events.len() == 0 {
        Seq::empty()
    } else {
        let head = match events[0] {
            Event::UpstreamChunk(bytes) => bytes@,
            _ => Seq::empty(),
        };
        head + received(events.drop_first())
    }
}

/// Once a request has reached a terminal stage it stays there, and every
/// later event is ignored.
pub proof fn lemma_terminal_is_final(routes: Seq<RouteConfig>, stage: Stage, events: Seq<Event>)
    requires
        is_terminal(stage),
    ensures
        run(routes, stage, events).0 == stage,
        run(routes, stage, events).1.len() == events.len(),
        forall|k: int|
            0 <= k < events.len() ==> #[trigger] run(routes, stage, events).1[k] is Ignore,
        relayed(run(routes, stage, events).1) == Seq::<u8>::empty(),
    decreases events.len(),
{
    if events.len() > 0 {
        lemma_terminal_is_final(routes, stage, events.drop_first());
        let rest = run(routes, stage, events.drop_first()).1;
        let all = run(routes, stage, events).1;
        assert(all == seq![Action::Ignore] + rest);
        assert forall|k: int| 0 <= k < events.len() implies #[trigger] all[k] is Ignore by {
            if k > 0 {
                assert(all[k] == rest[k - 1]);
            }
        }
        assert(all.drop_first() =~= rest);
    }
}

/// A request whose host and path a route accepts, and no earlier one, goes to
/// that route's target: the upstream URL has the target host as authority and
/// the inbound path and query unchanged at its end.
pub proof fn lemma_matched_request_goes_to_target(
    routes: Seq<RouteConfig>,
    addr: Address,
    i: int,
    uri: Seq<char>,
)
    requires
        0 <= i < routes.len(),
        route_accepts(routes[i], addr.host@, addr.path@),
        forall|j: int| 0 <= j < i ==> !route_accepts(#[trigger] routes[j], addr.host@, addr.path@),
        routes.len() <= usize::MAX,
    ensures
        next(routes, Stage::Received, Event::Arrived(addr)) == (
            Stage::Translating { route: i as usize },
            Action::Translate { route: i as usize },
        ),
        next(routes, Stage::Translating { route: i as usize }, Event::Translated(Ok(()))) == (
            Stage::Forwarding { route: i as usize },
            Action::Send,
        ),
        upstream_url_of(routes[i].target.host@, uri).subrange(0, 7) == "http://"@,
        upstream_url_of(routes[i].target.host@, uri).subrange(
            7,
            7 + routes[i].target.host@.len() as int,
        ) == routes[i].target.host@,
        uri.is_suffix_of(upstream_url_of(routes[i].target.host@, uri)),
{
    assert(is_first_match(routes, addr.host@, addr.path@, Some(i)));
    lemma_first_match_is(routes, addr.host@, addr.path@, Some(i));
    lemma_upstream_url_parts(routes[i].target.host@, uri);
}

/// A request that no route accepts is answered 404, and no upstream request
/// is ever built or sent for it, whatever happens afterwards.
pub proof fn lemma_unmatched_request_is_404(
    routes: Seq<RouteConfig>,
    addr: Address,
    later: Seq<Event>,
)
    requires
        forall|j: int| 0 <= j < routes.len() ==> !route_accepts(#[trigger] routes[j], addr.host@, addr.path@),
    ensures
        next(routes, Stage::Received, Event::Arrived(addr)) == (
            Stage::Respond404,
            Action::Reply { status: 404, outcome: Outcome::NotFound },
        ),
        run(routes, Stage::Received, seq![Event::Arrived(addr)] + later).0 == Stage::Respond404,
        forall|k: int|
            0 <= k < later.len() + 1 ==> {
                let a = #[trigger] run(routes, Stage::Received, seq![Event::Arrived(addr)] + later).1[k];
                !(a is Translate) && !(a is Send)
            },
{
    lemma_first_match_is(routes, addr.host@, addr.path@, None);
    let events = seq![Event::Arrived(addr)] + later;
    assert(events.drop_first() =~= later);
    lemma_terminal_is_final(routes, Stage::Respond404, later);
    let all = run(routes, Stage::Received, events).1;
    let rest = run(routes, Stage::Respond404, later).1;
    assert(all == seq![Action::Reply { status: 404, outcome: Outcome::NotFound }] + rest);
    assert forall|k: int| 0 <= k < later.len() + 1 implies {
        let a = #[trigger] all[k];
        !(a is Translate) && !(a is Send)
    } by {
        if k > 0 {
            assert(all[k] == rest[k - 1]);
        }
    }
}

/// A request whose translation failed (its body over the cap, or a header
/// value that cannot be sent) is answered 500, and nothing is ever sent
/// upstream for it, whatever happens afterwards.
pub proof fn lemma_failed_translation_never_forwards(
    routes: Seq<RouteConfig>,
    route: usize,
    e: TranslateError,
    later: Seq<Event>,
)
    ensures
        next(routes, Stage::Translating { route }, Event::Translated(Err(e))) == (
            Stage::Respond5xx { status: 500 },
            Action::Reply { status: 500, outcome: Outcome::TranslationFailed(e) },
        ),
        run(routes, Stage::Translating { route }, seq![Event::Translated(Err(e))] + later).0
            == (Stage::Respond5xx { status: 500 }),
        forall|k: int|
            0 <= k < later.len() + 1 ==> !(#[trigger] run(
                routes,
                Stage::Translating { route },
                seq![Event::Translated(Err(e))] + later,
            ).1[k] is Send),
{
    let events = seq![Event::Translated(Err(e))] + later;
    let failed = Stage::Respond5xx { status: 500 };
    assert(events.drop_first() =~= later);
    lemma_terminal_is_final(routes, failed, later);
    let all = run(routes, Stage::Translating { route }, events).1;
    let rest = run(routes, failed, later).1;
    assert(all == seq![
        Action::Reply { status: 500, outcome: Outcome::TranslationFailed(e) },
    ] + rest);
    assert forall|k: int| 0 <= k < later.len() + 1 implies !(#[trigger] all[k] is Send) by {
        if k > 0 {
            assert(all[k] == rest[k - 1]);
        }
    }
}

/// While streaming, the bytes written to the client are exactly the bytes
/// received from the upstream, in the same order, whatever their number.
pub proof fn lemma_stream_relays_bytes(routes: Seq<RouteConfig>, events: Seq<Event>)
    requires
        forall|k: int| 0 <= k < events.len() ==> #[trigger] events[k] is UpstreamChunk,
    ensures
        run(routes, Stage::Streaming, events).0 == Stage::Streaming,
        relayed(run(routes, Stage::Streaming, events).1) == received(events),
    decreases events.len(),
{
    if events.len() > 0 {
        let tail = events.drop_first();
        assert forall|k: int| 0 <= k < tail.len() implies #[trigger] tail[k] is UpstreamChunk by {
            assert(tail[k] == events[k + 1]);
        }
        lemma_stream_relays_bytes(routes, tail);
        let all = run(routes, Stage::Streaming, events).1;
        let rest = run(routes, Stage::Streaming, tail).1;
        assert(events[0] is UpstreamChunk);
        assert(all.drop_first() =~= rest);
    }
}

/// A client that goes away mid-response has its upstream connection closed
/// at once, and nothing more is relayed for it.
pub proof fn lemma_client_gone_aborts_upstream(routes: Seq<RouteConfig>, later: Seq<Event>)
    ensures
        next(routes, Stage::Streaming, Event::ClientGone) == (Stage::Done, Action::AbortUpstream),
        run(routes, Stage::Streaming, seq![Event::ClientGone] + later).0 == Stage::Done,
        relayed(run(routes, Stage::Streaming, seq![Event::ClientGone] + later).1)
            == Seq::<u8>::empty(),
{
    let events = seq![Event::ClientGone] + later;
    assert(events.drop_first() =~= later);
    lemma_terminal_is_final(routes, Stage::Done, later);
    let all = run(routes, Stage::Streaming, events).1;
    assert(all.drop_first() =~= run(routes, Stage::Done, later).1);
}

} // verus!
