//! Narrowing a list of hits: by session, by recency, and to a limit.

use crate::hit::SearchHit;
use crate::text::{contains, occurs_in, same_text, text_view};
use crate::time::{current_time, Timestamp};
use vstd::prelude::*;

verus! {

/// The hit belongs to the session `id`: its external identifier is `id`, or
/// its conversation identifier is `id`, or `id` stands in its source path.
pub open spec fn in_session(hit: SearchHit, id: Seq<char>) -> bool {
    ||| (hit.external_id matches Some(e) && e@ == id)
    ||| hit.conversation_id@ == id
    ||| (hit.source_path matches Some(p) && occurs_in(p@, id))
}

/// The session test: every hit passes where no session is asked for.
pub open spec fn session_matches(hit: SearchHit, session: Option<Seq<char>>) -> bool {
    match session {
        Some(id) => in_session(hit, id),
        None => true,
    }
}

/// The recency test: every hit passes where no day count is given; else a
/// hit passes unless its effective timestamp lies strictly before the
/// cutoff, `days` days before `now`.
pub open spec fn is_recent(hit: SearchHit, days: Option<u32>, now: Timestamp) -> bool {
    match days {
        Some(d) => !hit.effective_timestamp().before_cutoff(now, d as nat),
        None => true,
    }
}

/// The hit passes both tests.
pub open spec fn keeps(
    hit: SearchHit,
    session: Option<Seq<char>>,
    days: Option<u32>,
    now: Timestamp,
) -> bool {
    session_matches(hit, session) && is_recent(hit, days, now)
}

/// The hits that pass both tests, in the order in which they stood.
pub open spec fn filtered(
    hits: Seq<SearchHit>,
    session: Option<Seq<char>>,
    days: Option<u32>,
    now: Timestamp,
) -> Seq<SearchHit> {
    hits.filter(|h: SearchHit| keeps(h, session, days, now))
}

/// The first `limit` hits, or all of them where there are fewer.
pub open spec fn truncated(hits: Seq<SearchHit>, limit: nat) -> Seq<SearchHit> {
    if limit < hits.len() {
        hits.take(limit as int)
    } else {
        hits
    }
}

/// Whether the hit belongs to the session `id`.
pub fn hit_in_session(hit: &SearchHit, id: &str) -> (r: bool)
    ensures
        r == in_session(*hit, id@),
{
    let by_external = match &hit.external_id {
        Some(e) => same_text(e.as_str(), id),
        None => false,
    };
    if by_external {
        return true;
    }
    if same_text(hit.conversation_id.as_str(), id) {
        return true;
    }
    match &hit.source_path {
        Some(p) => contains(p.as_str(), id),
        None => false,
    }
}

/// Whether the hit passes the session test and the recency test.
pub fn hit_passes(hit: &SearchHit, session: Option<&str>, days: Option<u32>, now: &Timestamp) -> (r:
    bool)
    ensures
        r == keeps(*hit, text_view(session), days, *now),
{
    let session_ok = match session {
        Some(id) => hit_in_session(hit, id),
        None => true,
    };
    if !session_ok {
        return false;
    }
    match days {
        Some(d) => !hit.timestamp().is_before_cutoff(now, d),
        None => true,
    }
}

/// Keeps the hits that pass the session test and the recency test, judged
/// against the clock reading `now`. The survivors keep their order.
pub fn filter_hits_at(
    hits: Vec<SearchHit>,
    session: Option<&str>,
    days: Option<u32>,
    now: Timestamp,
) -> (kept: Vec<SearchHit>)
    ensures
        kept@ == filtered(hits@, text_view(session), days, now),
{
    let ghost all = hits@;
    let ghost pred = |h: SearchHit| keeps(h, text_view(session), days, now);
    let mut kept: Vec<SearchHit> = Vec::new();
    proof {
        reveal(Seq::filter);
    }
    for hit in it: hits
        invariant
            it.seq() == all,
            pred == (|h: SearchHit| keeps(h, text_view(session), days, now)),
            kept@ == all.take(it.index() as int).filter(pred),
    {
        proof {
            reveal(Seq::filter);
            assert(all.take(it.index() + 1).drop_last() == all.take(it.index() as int));
        }
        if hit_passes(&hit, session, days, &now) {
            kept.push(hit);
        }
    }
    assert(all.take(all.len() as int) == all);
    kept
}

/// Keeps the hits that pass the session test and the recency test, judged
/// against the clock as this call reads it.
pub fn filter_hits(hits: Vec<SearchHit>, session: Option<&str>, days: Option<u32>) -> (kept: Vec<
    SearchHit,
>)
    ensures
        exists|now: Timestamp| kept@ == #[trigger] filtered(hits@, text_view(session), days, now),
        days is None ==> kept@ == hits@.filter(
            |h: SearchHit| session_matches(h, text_view(session)),
        ),
{
    let now = current_time();
    let ghost all = hits@;
    let kept = filter_hits_at(hits, session, days, now);
    proof {
        if days is None {
            lemma_filter_without_days(all, text_view(session), now);
        }
    }
    kept
}

/// Keeps the first `limit` hits.
pub fn truncate(hits: Vec<SearchHit>, limit: usize) -> (kept: Vec<SearchHit>)
    ensures
        kept@ == truncated(hits@, limit as nat),
{
    let mut kept = hits;
    kept.truncate(limit);
    kept
}

/// Without a day count the clock plays no part: filtering is the session
/// test alone.
pub proof fn lemma_filter_without_days(
    hits: Seq<SearchHit>,
    session: Option<Seq<char>>,
    now: Timestamp,
)
    ensures
        filtered(hits, session, None, now) == hits.filter(
            |h: SearchHit| session_matches(h, session),
        ),
{
    let p = |h: SearchHit| keeps(h, session, None, now);
    let q = |h: SearchHit| session_matches(h, session);
    assert(p =~= q);
}

/// The positions in `hits` of the hits that pass both tests, in rising
/// order.
pub open spec fn kept_positions(
    hits: Seq<SearchHit>,
    session: Option<Seq<char>>,
    days: Option<u32>,
    now: Timestamp,
) -> Seq<int>
    decreases hits.len(),
{
    if hits.len() == 0 {
        Seq::empty()
    } else {
        let before = kept_positions(hits.drop_last(), session, days, now);
        if keeps(hits.last(), session, days, now) {
            before.push(hits.len() - 1)
        } else {
            before
        }
    }
}

/// Filtering is stable: the survivors are the hits at `kept_positions`,
/// which rise strictly, so two survivors stand in the order in which they
/// stood before. A position is among them exactly if its hit passes.
pub proof fn lemma_filter_preserves_order(
    hits: Seq<SearchHit>,
    session: Option<Seq<char>>,
    days: Option<u32>,
    now: Timestamp,
)
    ensures
        kept_positions(hits, session, days, now).len() == filtered(hits, session, days, now).len(),
        forall|k: int|
            0 <= k < filtered(hits, session, days, now).len() ==> {
                let at = #[trigger] kept_positions(hits, session, days, now)[k];
                0 <= at < hits.len() && filtered(hits, session, days, now)[k] == hits[at]
            },
        forall|j: int, k: int|
            0 <= j < k < filtered(hits, session, days, now).len() ==> kept_positions(
                hits,
                session,
                days,
                now,
            )[j] < kept_positions(hits, session, days, now)[k],
        forall|i: int|
            0 <= i < hits.len() ==> (keeps(#[trigger] hits[i], session, days, now)
                <==> kept_positions(hits, session, days, now).contains(i)),
    decreases hits.len(),
{
    reveal(Seq::filter);
    if hits.len() > 0 {
        let front = hits.drop_last();
        lemma_filter_preserves_order(front, session, days, now);
        let at = kept_positions(hits, session, days, now);
        let at_front = kept_positions(front, session, days, now);
        assert forall|i: int| 0 <= i < hits.len() implies (keeps(
            #[trigger] hits[i],
            session,
            days,
            now,
        ) <==> at.contains(i)) by {
            if i < front.len() {
                assert(front[i] == hits[i]);
                if at_front.contains(i) {
                    let k = choose|k: int| 0 <= k < at_front.len() && at_front[k] == i;
                    assert(at[k] == i);
                }
                if at.contains(i) {
                    let k = choose|k: int| 0 <= k < at.len() && at[k] == i;
                    assert(at_front[k] == i);
                }
            } else {
                if keeps(hits[i], session, days, now) {
                    assert(at[at.len() - 1] == i);
                }
                if at.contains(i) {
                    let k = choose|k: int| 0 <= k < at.len() && at[k] == i;
                    if k < at_front.len() {
                        assert(at_front[k] == i);
                    }
                }
            }
        }
    }
}

/// A limit of zero leaves no hit.
pub proof fn lemma_truncate_to_zero(hits: Seq<SearchHit>)
    ensures
        truncated(hits, 0) == Seq::<SearchHit>::empty(),
{
}

/// What is left after filtering and truncating is no longer than the limit.
pub proof fn lemma_truncated_within_limit(
    hits: Seq<SearchHit>,
    session: Option<Seq<char>>,
    days: Option<u32>,
    now: Timestamp,
    limit: nat,
)
    ensures
        truncated(filtered(hits, session, days, now), limit).len() <= limit,
        truncated(filtered(hits, session, days, now), limit).len() <= hits.len(),
{
    hits.lemma_filter_len(|h: SearchHit| keeps(h, session, days, now));
}

/// A hit whose external identifier is the session asked for passes the
/// session test, whatever its conversation identifier; so does a hit whose
/// conversation identifier is the session asked for, whatever else it holds.
pub proof fn lemma_session_by_identifier(hit: SearchHit, id: Seq<char>)
    ensures
        (hit.external_id matches Some(e) && e@ == id) ==> session_matches(hit, Some(id)),
        hit.conversation_id@ == id ==> session_matches(hit, Some(id)),
{
}

/// With a window of zero days the cutoff is the clock reading itself: a hit
/// passes the recency test exactly if its effective timestamp is not
/// earlier than `now`. A hit stamped `now` passes.
pub proof fn lemma_zero_days(hit: SearchHit, now: Timestamp)
    ensures
        is_recent(hit, Some(0u32), now) == !hit.effective_timestamp().earlier_than(now),
        hit.effective_timestamp() == now ==> is_recent(hit, Some(0u32), now),
{
}

} // verus!
