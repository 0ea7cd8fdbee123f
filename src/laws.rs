//! What holds of every resolution, whatever the replies.
use vstd::prelude::*;
use crate::couriers::{CourierType, cjlogistics, cupost, hint_of, valid_for};
use crate::error::ErrorView;
use crate::status::{EventView, InfoView, chronological, normalized, lemma_normalized_chronological};
use crate::session::{
    ActionView, Phase, ReplyResult, TrackingView, begin, parse_of, relabel, relabel_outcome,
    resolution, run, step,
};
use crate::text::has_text;
use crate::format::all_digits;

verus! {

/// The outcome holds its events in chronological order, where it is a success.
pub open spec fn ordered_outcome(r: Result<InfoView, ErrorView>) -> bool {
    r matches Ok(info) ==> chronological(info.tracks)
}

proof fn lemma_all_normalized_chronological()
    ensures
        forall|s: Seq<EventView>, newest_first: bool, by_state: bool|
            chronological(#[trigger] normalized(s, newest_first, by_state)),
{
    assert forall|s: Seq<EventView>, newest_first: bool, by_state: bool|
        chronological(#[trigger] normalized(s, newest_first, by_state)) by {
        lemma_normalized_chronological(s, newest_first, by_state);
    }
}

#[verifier::rlimit(50)]
proof fn lemma_parse_ordered(c: CourierType, tn: Seq<char>, body: Seq<char>)
    ensures
        parse_of(c, tn, body) matches Some(r) ==> ordered_outcome(r),
        ordered_outcome(cjlogistics::parsed(body)),
{
    reveal(parse_of);
    lemma_all_normalized_chronological();
}

proof fn lemma_step_ordered(t: TrackingView, reply: ReplyResult)
    ensures
        step(t, reply).1 matches ActionView::Finish(r) ==> ordered_outcome(r),
{
    reveal(step);
    if let Ok(r) = reply {
        lemma_parse_ordered(CourierType::Cjlogistics, t.number, r.body);
        if let Phase::Query(c) = t.phase {
            lemma_parse_ordered(c, t.number, r.body);
        }
    }
}

proof fn lemma_run_ordered(t: TrackingView, action: ActionView, replies: Seq<ReplyResult>)
    requires
        action matches ActionView::Finish(r) ==> ordered_outcome(r),
    ensures
        run(t, action, replies) matches Some(r) ==> ordered_outcome(r),
    decreases replies.len(),
{
    if action is Send && replies.len() > 0 {
        lemma_step_ordered(t, replies[0]);
        let (phase, next) = step(t, replies[0]);
        lemma_run_ordered(TrackingView { phase, ..t }, next, replies.drop_first());
    }
}

/// Every successful resolution holds its events in chronological order,
/// whatever order the courier's replies listed them in.
pub proof fn lemma_resolved_events_chronological(c: CourierType, tn: Seq<char>, replies: Seq<ReplyResult>)
    ensures
        resolution(c, tn, replies) matches Some(Ok(info)) ==> chronological(info.tracks),
{
    let (phase, action) = begin(c, tn);
    lemma_run_ordered(TrackingView { outer: c, number: tn, phase }, action, replies);
}

/// A number without the courier's format is rejected with the courier's hint
/// before any request is made: the outcome needs no reply at all.
pub proof fn lemma_malformed_number_needs_no_request(c: CourierType, tn: Seq<char>, replies: Seq<ReplyResult>)
    requires
        !valid_for(c, tn),
    ensures
        resolution(c, tn, replies) == Some(
            Result::<InfoView, ErrorView>::Err(ErrorView::WrongTrackingNumber(hint_of(c))),
        ),
{
}

/// Every courier but the two whose formats are patterns accepts only ASCII
/// digits, from ten to fourteen of them; a number it accepts has one of the
/// lengths it documents.
pub proof fn lemma_numeric_formats(c: CourierType, s: Seq<char>)
    requires
        c != CourierType::EpostEMS,
        c != CourierType::Cainiao,
    ensures
        valid_for(c, s) ==> all_digits(s) && 10 <= s.len() <= 14,
        valid_for(c, s) <==> all_digits(s) && documented_lengths(c).contains(s.len()),
{
    assert(documented_lengths(c).contains(s.len()) <==> match c {
        CourierType::Cjlogistics | CourierType::Gspostbox => s.len() == 10 || s.len() == 12,
        CourierType::Epost | CourierType::Kyoungdong => s.len() == 13,
        CourierType::Hanjin => s.len() == 12 || s.len() == 14,
        CourierType::Logen | CourierType::Chunil => s.len() == 11,
        CourierType::Lotte => s.len() == 10 || s.len() == 12 || s.len() == 13,
        CourierType::Cupost => s.len() == 10 || s.len() == 11 || s.len() == 12,
        CourierType::Daesin => s.len() == 12 || s.len() == 13,
        CourierType::IlyangLogis => s.len() == 10,
        _ => s.len() == 12,
    });
}

/// The lengths of number that a courier with a numeric format documents.
pub open spec fn documented_lengths(c: CourierType) -> Set<nat> {
    match c {
        CourierType::Cjlogistics | CourierType::Gspostbox => set![10, 12],
        CourierType::Epost | CourierType::Kyoungdong => set![13],
        CourierType::Hanjin => set![12, 14],
        CourierType::Logen | CourierType::Chunil => set![11],
        CourierType::Lotte => set![10, 12, 13],
        CourierType::Cupost => set![10, 11, 12],
        CourierType::Daesin => set![12, 13],
        CourierType::IlyangLogis => set![10],
        CourierType::Warpex | CourierType::Fedex => set![12],
        _ => Set::empty(),
    }
}

/// Replies beyond those a resolution asked for change nothing: once known,
/// the outcome stays the same.
proof fn lemma_run_settled(t: TrackingView, action: ActionView, replies: Seq<ReplyResult>, extra: Seq<ReplyResult>)
    requires
        run(t, action, replies) is Some,
    ensures
        run(t, action, replies + extra) == run(t, action, replies),
    decreases replies.len(),
{
    if action is Send {
        assert((replies + extra)[0] == replies[0]);
        assert((replies + extra).drop_first() =~= replies.drop_first() + extra);
        let (phase, next) = step(t, replies[0]);
        lemma_run_settled(TrackingView { phase, ..t }, next, replies.drop_first(), extra);
    }
}

/// A resolution depends only on the replies it asked for: two resolutions of
/// the same number with the same courier, whose replies agree up to the point
/// where the first one knows its outcome, give the same outcome, events in the
/// same order; replies beyond those change nothing.
pub proof fn lemma_resolution_repeatable(
    c: CourierType,
    tn: Seq<char>,
    replies: Seq<ReplyResult>,
    other: Seq<ReplyResult>,
)
    requires
        resolution(c, tn, replies) is Some,
        replies.len() <= other.len(),
        other.subrange(0, replies.len() as int) == replies,
    ensures
        resolution(c, tn, other) == resolution(c, tn, replies),
{
    let (phase, action) = begin(c, tn);
    let extra = other.subrange(replies.len() as int, other.len() as int);
    assert(replies + extra =~= other);
    lemma_run_settled(TrackingView { outer: c, number: tn, phase }, action, replies, extra);
}

/// The two pattern formats fix the length: thirteen characters for a postal
/// item, thirteen or sixteen for Cainiao.
pub proof fn lemma_pattern_formats(s: Seq<char>)
    ensures
        valid_for(CourierType::EpostEMS, s) ==> s.len() == 13,
        valid_for(CourierType::Cainiao, s) ==> s.len() == 13 || s.len() == 16,
{
}

proof fn lemma_relabel_twice(r: Result<InfoView, ErrorView>, a: CourierType, b: CourierType)
    ensures
        relabel(relabel(r, a), b) == relabel(r, b),
{
}

/// From the token phase on, a resolution for a broker runs as CJ Logistics'
/// own would, but for the identity its success carries.
proof fn lemma_cj_phases_relabel(
    outer: CourierType,
    tn: Seq<char>,
    phase: Phase,
    q1: crate::transport::RequestView,
    q2: crate::transport::RequestView,
    replies: Seq<ReplyResult>,
)
    requires
        phase == Phase::Token || phase == Phase::Detail,
    ensures
        run(TrackingView { outer, number: tn, phase }, ActionView::Send(q1), replies)
            == relabel_outcome(
            run(
                TrackingView { outer: CourierType::Cjlogistics, number: tn, phase },
                ActionView::Send(q2),
                replies,
            ),
            outer,
        ),
    decreases replies.len(),
{
    if replies.len() > 0 {
        reveal(step);
        let t1 = TrackingView { outer, number: tn, phase };
        let t2 = TrackingView { outer: CourierType::Cjlogistics, number: tn, phase };
        let (p1, a1) = step(t1, replies[0]);
        let (p2, a2) = step(t2, replies[0]);
        let rest = replies.drop_first();
        assert(run(t1, ActionView::Send(q1), replies) == run(TrackingView { phase: p1, ..t1 }, a1, rest));
        assert(run(t2, ActionView::Send(q2), replies) == run(TrackingView { phase: p2, ..t2 }, a2, rest));
        match replies[0] {
            Err(_) => {},
            Ok(r) => {
                if phase == Phase::Token {
                    if let Some(token) = cjlogistics::token_of(r.body) {
                        assert(p1 == Phase::Detail && p2 == Phase::Detail);
                        let q = cjlogistics::detail_request(tn, token, r.cookies);
                        lemma_cj_phases_relabel(outer, tn, Phase::Detail, q, q, rest);
                    }
                } else {
                    lemma_relabel_twice(cjlogistics::parsed(r.body), CourierType::Cjlogistics, outer);
                }
            },
        }
    }
}

/// A broker whose reply hands the parcel over to CJ Logistics gives what CJ
/// Logistics gives for the number, with the broker's identity: the events are
/// CJ Logistics' own.
pub proof fn lemma_handover_keeps_carrier_events(
    broker: CourierType,
    tn: Seq<char>,
    first: ReplyResult,
    rest: Seq<ReplyResult>,
)
    requires
        valid_for(broker, tn),
        broker != CourierType::Cjlogistics,
        first matches Ok(r) && parse_of(broker, tn, r.body) is None,
    ensures
        resolution(broker, tn, seq![first] + rest) == relabel_outcome(
            resolution(CourierType::Cjlogistics, tn, rest),
            broker,
        ),
{
    reveal(step);
    let all = seq![first] + rest;
    assert(all[0] == first);
    assert(all.drop_first() =~= rest);
    let t = TrackingView { outer: broker, number: tn, phase: Phase::Query(broker) };
    assert(begin(broker, tn) == (Phase::Query(broker), ActionView::Send(crate::session::request_for(broker, tn))));
    let (phase, next) = step(t, first);
    assert(resolution(broker, tn, all) == run(TrackingView { phase, ..t }, next, rest));
    assert((phase, next) == begin(CourierType::Cjlogistics, tn));
    if valid_for(CourierType::Cjlogistics, tn) {
        let q = crate::session::request_for(CourierType::Cjlogistics, tn);
        assert(phase == Phase::Token);
        lemma_cj_phases_relabel(broker, tn, Phase::Token, q, q, rest);
    }
}

/// The CU convenience-store service hands a parcel over to CJ Logistics when
/// its reply page embeds CJ Logistics' tracking frame.
pub proof fn lemma_cupost_handover(tn: Seq<char>, first: ReplyResult, rest: Seq<ReplyResult>)
    requires
        valid_for(CourierType::Cupost, tn),
        first matches Ok(r) && has_text(r.body, cupost::HANDED_OVER@),
    ensures
        resolution(CourierType::Cupost, tn, seq![first] + rest) == relabel_outcome(
            resolution(CourierType::Cjlogistics, tn, rest),
            CourierType::Cupost,
        ),
{
    reveal(parse_of);
    lemma_handover_keeps_carrier_events(CourierType::Cupost, tn, first, rest);
}

} // verus!
