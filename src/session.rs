//! One resolution of a tracking number, as a state machine: the library decides
//! which request to send next and what the replies mean; the caller sends the
//! requests and hands back the replies.
use vstd::prelude::*;
use crate::couriers::{CourierType, hint_of, id_of, name_of, valid_for};
use crate::couriers::{cjlogistics, epost, epostems, hanjin, logen, lotte, cupost, gspostbox, chunil, daesin, ilyanglogis, kyoungdong, warpex, fedex, cainiao};
use crate::couriers::{cjlogistics::Cjlogistics, epost::Epost, epostems::EpostEMS, hanjin::Hanjin, logen::Logen, lotte::Lotte, cupost::Cupost, gspostbox::Gspostbox, chunil::Chunil, daesin::Daesin, ilyanglogis::IlyangLogis, kyoungdong::Kyoungdong, warpex::Warpex, fedex::Fedex, cainiao::Cainiao};
use crate::error::{ErrorView, TrackingError};
use crate::extract::{missing, missing_field, opt_result_view, result_view};
use crate::registry::{DeliveryTracker, courier_of};
use crate::status::{DeliveryStatus, InfoView};
use crate::transport::{HttpReply, HttpRequest, ReplyView, RequestView, agent_headers, get_view, post_view};

verus! {

/// Where a resolution stands.
#[derive(Clone, Copy, PartialEq, Eq, Structural, Debug)]
pub enum Phase {
    /// Waiting for the reply of `courier`'s own query.
    Query(CourierType),
    /// Waiting for CJ Logistics' tracking page, which carries the session token.
    Token,
    /// Waiting for CJ Logistics' reply to the query made with that token.
    Detail,
    /// The outcome is known.
    Done,
}

/// What the caller does next.
pub enum Action {
    /// Send this request and hand back what came of it.
    Send(HttpRequest),
    /// The resolution is over, with this outcome.
    Finish(Result<DeliveryStatus, TrackingError>),
}

pub enum ActionView {
    Send(RequestView),
    Finish(Result<InfoView, ErrorView>),
}

impl View for Action {
    type V = ActionView;

    open spec fn view(&self) -> ActionView {
        match self {
            Action::Send(q) => ActionView::Send(q@),
            Action::Finish(r) => ActionView::Finish(result_view(*r)),
        }
    }
}

/// A reply as the transport gives it: what came back, or why nothing did.
pub type ReplyResult = Result<ReplyView, Seq<char>>;

pub open spec fn reply_view(r: Result<HttpReply, String>) -> ReplyResult {
    match r {
        Ok(reply) => Ok(reply@),
        Err(detail) => Err(detail@),
    }
}

/// One resolution in progress.
pub struct Tracking {
    /// The courier the caller asked for.
    outer: CourierType,
    number: String,
    phase: Phase,
}

pub struct TrackingView {
    pub outer: CourierType,
    pub number: Seq<char>,
    pub phase: Phase,
}

impl View for Tracking {
    type V = TrackingView;

    closed spec fn view(&self) -> TrackingView {
        TrackingView { outer: self.outer, number: self.number@, phase: self.phase }
    }
}

/// The first request of `c` for `tn`.
#[verifier::opaque]
pub open spec fn request_for(c: CourierType, tn: Seq<char>) -> RequestView {
    match c {
        CourierType::Cjlogistics => get_view(cjlogistics::PAGE@, Seq::empty()),
        CourierType::Epost => get_view(epost::PAGE@ + tn, Seq::empty()),
        CourierType::EpostEMS => get_view(epostems::page(tn), Seq::empty()),
        CourierType::Hanjin => get_view(hanjin::PAGE@ + tn, agent_headers()),
        CourierType::Logen => get_view(logen::PAGE@ + tn, Seq::empty()),
        CourierType::Lotte => post_view(lotte::ENDPOINT@, agent_headers(), seq![("InvNo"@, tn)]),
        CourierType::Cupost => post_view(cupost::ENDPOINT@, agent_headers(), seq![("invoice_no"@, tn)]),
        CourierType::Gspostbox => get_view(gspostbox::PAGE@ + tn, agent_headers()),
        CourierType::Chunil => get_view(chunil::PAGE@ + tn, Seq::empty()),
        CourierType::Daesin => get_view(daesin::PAGE@ + tn, Seq::empty()),
        CourierType::IlyangLogis => get_view(ilyanglogis::PAGE@ + tn, Seq::empty()),
        CourierType::Kyoungdong => get_view(kyoungdong::ENDPOINT@ + tn, Seq::empty()),
        CourierType::Warpex => get_view(warpex::PAGE@ + tn, Seq::empty()),
        CourierType::Fedex => post_view(fedex::ENDPOINT@, Seq::empty(), fedex::form(tn)),
        CourierType::Cainiao => get_view(cainiao::PAGE@ + tn, agent_headers()),
    }
}

/// What a reply to `c`'s own query says; `None` where the parcel is CJ Logistics'.
#[verifier::opaque]
pub open spec fn parse_of(c: CourierType, tn: Seq<char>, body: Seq<char>) -> Option<Result<InfoView, ErrorView>> {
    match c {
        CourierType::Cjlogistics => Some(cjlogistics::parsed(body)),
        CourierType::Epost => Some(epost::parsed(tn, body)),
        CourierType::EpostEMS => Some(epostems::parsed(tn, body)),
        CourierType::Hanjin => Some(hanjin::parsed(tn, body)),
        CourierType::Logen => Some(logen::parsed(tn, body)),
        CourierType::Lotte => Some(lotte::parsed(tn, body)),
        CourierType::Cupost => cupost::parsed(body),
        CourierType::Gspostbox => gspostbox::parsed(tn, body),
        CourierType::Chunil => Some(chunil::parsed(tn, body)),
        CourierType::Daesin => Some(daesin::parsed(tn, body)),
        CourierType::IlyangLogis => Some(ilyanglogis::parsed(tn, body)),
        CourierType::Kyoungdong => Some(kyoungdong::parsed(body)),
        CourierType::Warpex => Some(warpex::parsed(tn, body)),
        CourierType::Fedex => Some(fedex::parsed(tn, body)),
        CourierType::Cainiao => Some(cainiao::parsed(tn, body)),
    }
}

/// `r` as the courier `outer` shows it: a success carries its identity.
pub open spec fn relabel(r: Result<InfoView, ErrorView>, outer: CourierType) -> Result<InfoView, ErrorView> {
    match r {
        Ok(info) => Ok(InfoView { id: id_of(outer), name: name_of(outer), ..info }),
        Err(e) => Err(e),
    }
}

pub open spec fn relabel_outcome(r: Option<Result<InfoView, ErrorView>>, outer: CourierType) -> Option<
    Result<InfoView, ErrorView>,
> {
    match r {
        Some(r) => Some(relabel(r, outer)),
        None => None,
    }
}

/// How a resolution of `c` for `tn` begins: a number without the courier's
/// format ends it at once, before any request.
pub open spec fn begin(c: CourierType, tn: Seq<char>) -> (Phase, ActionView) {
    if !valid_for(c, tn) {
        (Phase::Done, ActionView::Finish(Err(ErrorView::WrongTrackingNumber(hint_of(c)))))
    } else if c == CourierType::Cjlogistics {
        (Phase::Token, ActionView::Send(request_for(c, tn)))
    } else {
        (Phase::Query(c), ActionView::Send(request_for(c, tn)))
    }
}

/// What a reply does to a resolution that waits for one.
#[verifier::opaque]
pub open spec fn step(t: TrackingView, reply: ReplyResult) -> (Phase, ActionView) {
    match reply {
        Err(detail) => (Phase::Done, ActionView::Finish(Err(ErrorView::RequestFailed(detail)))),
        Ok(r) => match t.phase {
            Phase::Query(c) => match parse_of(c, t.number, r.body) {
                Some(res) => (Phase::Done, ActionView::Finish(relabel(res, t.outer))),
                None => begin(CourierType::Cjlogistics, t.number),
            },
            Phase::Token => match cjlogistics::token_of(r.body) {
                None => (Phase::Done, ActionView::Finish(Err(missing()))),
                Some(token) => (
                    Phase::Detail,
                    ActionView::Send(cjlogistics::detail_request(t.number, token, r.cookies)),
                ),
            },
            Phase::Detail => (
                Phase::Done,
                ActionView::Finish(relabel(cjlogistics::parsed(r.body), t.outer)),
            ),
            Phase::Done => (Phase::Done, ActionView::Finish(Err(ErrorView::RequestFailed("the resolution is over"@)))),
        },
    }
}

/// The outcome once the replies in `replies` have come, in order: `None`
/// where it still waits for one.
pub open spec fn run(t: TrackingView, action: ActionView, replies: Seq<ReplyResult>) -> Option<
    Result<InfoView, ErrorView>,
>
    decreases replies.len(),
{
    match action {
        ActionView::Finish(r) => Some(r),
        ActionView::Send(_) => if replies.len() == 0 {
            None
        } else {
            let (phase, next) = step(t, replies[0]);
            run(TrackingView { phase, ..t }, next, replies.drop_first())
        },
    }
}

/// The outcome of resolving `tn` with courier `c`, given the replies to its requests in order.
pub open spec fn resolution(c: CourierType, tn: Seq<char>, replies: Seq<ReplyResult>) -> Option<
    Result<InfoView, ErrorView>,
> {
    let (phase, action) = begin(c, tn);
    run(TrackingView { outer: c, number: tn, phase }, action, replies)
}

fn first_request(c: CourierType, tracking_number: &str) -> (r: HttpRequest)
    ensures
        r@ == request_for(c, tracking_number@),
{
    proof {
        reveal(request_for);
    }
    match c {
        CourierType::Cjlogistics => Cjlogistics::token_request(),
        CourierType::Epost => Epost::request(tracking_number),
        CourierType::EpostEMS => EpostEMS::request(tracking_number),
        CourierType::Hanjin => Hanjin::request(tracking_number),
        CourierType::Logen => Logen::request(tracking_number),
        CourierType::Lotte => Lotte::request(tracking_number),
        CourierType::Cupost => Cupost::request(tracking_number),
        CourierType::Gspostbox => Gspostbox::request(tracking_number),
        CourierType::Chunil => Chunil::request(tracking_number),
        CourierType::Daesin => Daesin::request(tracking_number),
        CourierType::IlyangLogis => IlyangLogis::request(tracking_number),
        CourierType::Kyoungdong => Kyoungdong::request(tracking_number),
        CourierType::Warpex => Warpex::request(tracking_number),
        CourierType::Fedex => Fedex::request(tracking_number),
        CourierType::Cainiao => Cainiao::request(tracking_number),
    }
}

fn parse_reply(c: CourierType, tracking_number: &str, body: &str) -> (r: Option<Result<DeliveryStatus, TrackingError>>)
    ensures
        opt_result_view(r) == parse_of(c, tracking_number@, body@),
{
    proof {
        reveal(parse_of);
    }
    match c {
        CourierType::Cjlogistics => Some(Cjlogistics::parse(body)),
        CourierType::Epost => Some(Epost::parse(tracking_number, body)),
        CourierType::EpostEMS => Some(EpostEMS::parse(tracking_number, body)),
        CourierType::Hanjin => Some(Hanjin::parse(tracking_number, body)),
        CourierType::Logen => Some(Logen::parse(tracking_number, body)),
        CourierType::Lotte => Some(Lotte::parse(tracking_number, body)),
        CourierType::Cupost => Cupost::parse(body),
        CourierType::Gspostbox => Gspostbox::parse(tracking_number, body),
        CourierType::Chunil => Some(Chunil::parse(tracking_number, body)),
        CourierType::Daesin => Some(Daesin::parse(tracking_number, body)),
        CourierType::IlyangLogis => Some(IlyangLogis::parse(tracking_number, body)),
        CourierType::Kyoungdong => Some(Kyoungdong::parse(body)),
        CourierType::Warpex => Some(Warpex::parse(tracking_number, body)),
        CourierType::Fedex => Some(Fedex::parse(tracking_number, body)),
        CourierType::Cainiao => Some(Cainiao::parse(tracking_number, body)),
    }
}

fn relabeled(r: Result<DeliveryStatus, TrackingError>, outer: CourierType) -> (out: Result<DeliveryStatus, TrackingError>)
    ensures
        result_view(out) == relabel(result_view(r), outer),
{
    match r {
        Ok(info) => {
            let mut info = info;
            info.id = outer.id().to_string();
            info.name = outer.name().to_string();
            Ok(info)
        },
        Err(e) => Err(e),
    }
}

fn begin_exec(c: CourierType, tracking_number: &str) -> (r: (Phase, Action))
    ensures
        (r.0, r.1@) == begin(c, tracking_number@),
{
    if !c.validate(tracking_number) {
        (Phase::Done, Action::Finish(Err(TrackingError::WrongTrackingNumber(c.hint().to_string()))))
    } else if c == CourierType::Cjlogistics {
        (Phase::Token, Action::Send(first_request(c, tracking_number)))
    } else {
        (Phase::Query(c), Action::Send(first_request(c, tracking_number)))
    }
}

impl Tracking {
    pub open spec fn is_over(self) -> bool {
        self@.phase == Phase::Done
    }

    /// Whether the outcome is known, so that no reply is awaited.
    pub fn is_done(&self) -> (r: bool)
        ensures
            r == self.is_over(),
    {
        self.phase == Phase::Done
    }

    /// Begins resolving `tracking_number` with `courier`. A number without the
    /// courier's format is rejected at once, before any request.
    pub fn start(courier: CourierType, tracking_number: &str) -> (r: (Tracking, Action))
        ensures
            r.0@.outer == courier,
            r.0@.number == tracking_number@,
            (r.0@.phase, r.1@) == begin(courier, tracking_number@),
            r.1 is Send ==> !r.0.is_over(),
    {
        let (phase, action) = begin_exec(courier, tracking_number);
        (Tracking { outer: courier, number: tracking_number.to_string(), phase }, action)
    }

    /// Takes the reply to the last request sent: a transport failure ends the
    /// resolution with `RequestFailed`; otherwise the reply is read. A
    /// resolution that is over takes no more replies, and says so.
    pub fn receive(&mut self, reply: Result<HttpReply, String>) -> (r: Action)
        ensures
            final(self)@.outer == old(self)@.outer,
            final(self)@.number == old(self)@.number,
            (final(self)@.phase, r@) == step(old(self)@, reply_view(reply)),
            r is Send ==> !final(self).is_over(),
    {
        proof {
            reveal(step);
        }
        let body = match reply {
            Err(detail) => {
                self.phase = Phase::Done;
                return Action::Finish(Err(TrackingError::RequestFailed(detail)));
            },
            Ok(r) => r,
        };
        match self.phase {
            Phase::Query(c) => match parse_reply(c, self.number.as_str(), body.body.as_str()) {
                Some(res) => {
                    self.phase = Phase::Done;
                    Action::Finish(relabeled(res, self.outer))
                },
                None => {
                    let (phase, action) = begin_exec(CourierType::Cjlogistics, self.number.as_str());
                    self.phase = phase;
                    action
                },
            },
            Phase::Token => match Cjlogistics::token(body.body.as_str()) {
                None => {
                    self.phase = Phase::Done;
                    Action::Finish(Err(missing_field()))
                },
                Some(token) => {
                    self.phase = Phase::Detail;
                    Action::Send(Cjlogistics::request(self.number.as_str(), token.as_str(), &body.cookies))
                },
            },
            Phase::Detail => {
                self.phase = Phase::Done;
                Action::Finish(relabeled(Cjlogistics::parse(body.body.as_str()), self.outer))
            },
            Phase::Done => Action::Finish(Err(TrackingError::RequestFailed("the resolution is over".to_string()))),
        }
    }
}

pub open spec fn replies_view(v: Seq<Result<HttpReply, String>>) -> Seq<ReplyResult> {
    v.map_values(|r: Result<HttpReply, String>| reply_view(r))
}

impl DeliveryTracker {
    /// Begins resolving `tracking_number` with the courier registered under
    /// `courier_id`; `None` where no courier is registered under it.
    pub fn track(&self, courier_id: &str, tracking_number: &str) -> (r: Option<(Tracking, Action)>)
        ensures
            courier_of(courier_id@) is None ==> r is None,
            courier_of(courier_id@) matches Some(c) ==> r matches Some((t, a)) && t@.outer == c
                && t@.number == tracking_number@ && (t@.phase, a@) == begin(c, tracking_number@),
    {
        match CourierType::get_courier(courier_id) {
            None => None,
            Some(c) => Some(Tracking::start(c, tracking_number)),
        }
    }

    /// Resolves `tracking_number` with the courier registered under
    /// `courier_id`, answering its requests with `replies` in order. `None`
    /// where no courier is registered under the identifier, or the replies run
    /// out first.
    pub fn resolve_with(&self, courier_id: &str, tracking_number: &str, replies: Vec<Result<HttpReply, String>>) -> (r: Option<Result<DeliveryStatus, TrackingError>>)
        ensures
            courier_of(courier_id@) is None ==> r is None,
            courier_of(courier_id@) matches Some(c) ==> opt_result_view(r) == resolution(
                c,
                tracking_number@,
                replies_view(replies@),
            ),
    {
        let c = match CourierType::get_courier(courier_id) {
            None => return None,
            Some(c) => c,
        };
        let ghost all = replies_view(replies@);
        let (mut t, mut action) = Tracking::start(c, tracking_number);
        let mut rest = replies;
        let ghost mut used: int = 0;
        loop
            invariant
                courier_of(courier_id@) == Some(c),
                all == replies_view(replies@),
                0 <= used <= all.len(),
                replies_view(rest@) == all.subrange(used, all.len() as int),
                t@.outer == c,
                t@.number == tracking_number@,
                resolution(c, tracking_number@, all) == run(t@, action@, replies_view(rest@)),
            decreases rest@.len(),
        {
            match action {
                Action::Finish(r) => {
                    return Some(r);
                },
                Action::Send(_) => {
                    if rest.len() == 0 {
                        return None;
                    }
                    let ghost before = replies_view(rest@);
                    let reply = rest.remove(0);
                    proof {
                        assert(replies_view(rest@) =~= before.drop_first());
                        used = used + 1;
                    }
                    action = t.receive(reply);
                    proof {
                        assert(all.subrange(used, all.len() as int) =~= before.drop_first());
                    }
                },
            }
        }
    }
}

} // verus!
