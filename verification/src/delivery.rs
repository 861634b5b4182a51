//! A publisher at work on a metastore: one message carried through to its
//! end, and what holds of every such run.

use crate::metastore::{lemma_publish_keeps_wf, MemoryMetastore, MetastoreView};
use crate::publisher::{
    bumped, verdict, Action, ActionView, ObservableView, PhaseView, PublishOutcome, Publisher,
    PublisherView, Verdict,
};
use crate::split::{RequestView, SplitView, UploadedSplit};
use vstd::prelude::*;

verus! {

/// A bound on the calls and waits that the message in flight can still
/// take: every transient failure uses up one retry.
pub open spec fn budget(p: PublisherView) -> nat {
    let max = p.policy.max_attempts as int;
    match p.phase {
        PhaseView::Processing { failures, .. } => if failures < max {
            (2 * (max - failures) - 1) as nat
        } else {
            1
        },
        PhaseView::Backoff { attempt, .. } => if attempt <= max {
            (2 * (max - attempt)) as nat
        } else {
            0
        },
        _ => 0,
    }
}

/// Carries out what the publisher asks for until it asks for nothing more:
/// a publish request is put to the metastore and the answer handed back, a
/// wait is taken as over at once. Gives the publisher, the metastore and the
/// action that the run ends with.
pub open spec fn drive(p: PublisherView, m: MetastoreView, action: ActionView) -> (
    PublisherView,
    MetastoreView,
    ActionView,
)
    decreases budget(p),
    when p.wf()
{
    match action {
        ActionView::Publish(request) => {
            let (p_next, a2) = p.settle(PublishOutcome::of(m.answer(request)));
            let m2 = m.after(request);
            if a2 is Wait {
                drive(p_next, m2, a2)
            } else {
                (p_next, m2, a2)
            }
        },
        ActionView::Wait(_) => {
            let (p_next, a2) = p.wake();
            if a2 is Publish {
                drive(p_next, m, a2)
            } else {
                (p_next, m, a2)
            }
        },
        _ => (p, m, action),
    }
}

/// Hands the publisher one message and carries the message through to its
/// end on the metastore.
pub open spec fn delivered(p: PublisherView, m: MetastoreView, split: SplitView) -> (
    PublisherView,
    MetastoreView,
    ActionView,
) {
    let (p_taken, a1) = p.accept(split);
    drive(p_taken, m, a1)
}

/// Hands the publisher one message and carries it through to its end on an
/// in-memory metastore: every publish request goes to the metastore, and
/// every wait is taken as over at once. Returns the action that settles the
/// message.
pub fn deliver(publisher: &mut Publisher, metastore: &mut MemoryMetastore, message: UploadedSplit) -> (action:
    Action)
    requires
        old(publisher).wf(),
        old(metastore).wf(),
    ensures
        final(publisher).wf(),
        final(metastore).wf(),
        (final(publisher)@, final(metastore)@, action@) == delivered(
            old(publisher)@,
            old(metastore)@,
            message@,
        ),
{
    let ghost target = delivered(publisher@, metastore@, message@);
    let mut action = publisher.process_message(message);
    proof {
        publisher.lemma_wf_view();
    }
    loop
        invariant
            publisher.wf(),
            publisher@.wf(),
            metastore.wf(),
            target == delivered(old(publisher)@, old(metastore)@, message@),
            drive(publisher@, metastore@, action@) == target,
        decreases budget(publisher@),
    {
        match action {
            Action::Publish(request) => {
                let answer = metastore.publish_segment(&request);
                let next = publisher.handle_reply(PublishOutcome::from_answer(answer));
                proof {
                    publisher.lemma_wf_view();
                }
                match next {
                    Action::Wait(_) => {
                        action = next;
                    },
                    _ => {
                        return next;
                    },
                }
            },
            Action::Wait(_) => {
                let next = publisher.handle_wakeup();
                proof {
                    publisher.lemma_wf_view();
                }
                match next {
                    Action::Publish(_) => {
                        action = next;
                    },
                    _ => {
                        return next;
                    },
                }
            },
            _ => {
                return action;
            },
        }
    }
}

/// The same request, `n` times over.
pub open spec fn repeated(request: RequestView, n: nat) -> Seq<RequestView> {
    Seq::new(n, |i: int| request)
}

/// Whether the metastore, once its pending faults are used up, lets the
/// request succeed: it knows the index, and the segment is visible already
/// or its checkpoint is not stale.
pub open spec fn succeeds(m: MetastoreView, request: RequestView) -> bool {
    verdict(PublishOutcome::of(m.calm().answer(request))) == Verdict::Success
}

/// The publisher after it has acknowledged the split.
pub open spec fn acknowledged(p: PublisherView, split: SplitView) -> PublisherView {
    PublisherView {
        phase: PhaseView::Idle,
        observable: ObservableView {
            last_published_segment_id: Some(split.segment_id),
            published_count: bumped(p.observable.published_count),
            last_error_kind: p.observable.last_error_kind,
        },
        ..p
    }
}

proof fn lemma_drive_outlasts_faults(p: PublisherView, m: MetastoreView, split: SplitView, failures: u32)
    requires
        p.wf(),
        !p.stop_requested,
        p.phase == (PhaseView::Processing { split, failures }),
        m.faults == 0 || failures + m.faults < p.policy.max_attempts,
        succeeds(m, split.request()),
    ensures
        ({
            let (p_next, m2, a2) = drive(p, m, ActionView::Publish(split.request()));
            &&& a2 == ActionView::Acknowledge
            &&& p_next == acknowledged(p, split)
            &&& m2.faults == 0
            &&& m2.indexes == m.calm().after(split.request()).indexes
            &&& m2.calls == m.calls + repeated(split.request(), (m.faults + 1) as nat)
        }),
    decreases m.faults,
{
    let request = split.request();
    let action = ActionView::Publish(request);
    if m.faults == 0 {
        assert(m.calm() == m);
        let (p_next, a2) = p.settle(PublishOutcome::of(m.answer(request)));
        assert(a2 == ActionView::Acknowledge);
        assert(drive(p, m, action) == (p_next, m.after(request), a2));
        assert(m.after(request).calls =~= m.calls + repeated(request, 1));
    } else {
        let (p_next, a2) = p.settle(PublishOutcome::of(m.answer(request)));
        let m2 = m.after(request);
        assert(a2 is Wait);
        assert(p_next.phase == (PhaseView::Backoff { split, attempt: (failures + 1) as u32 }));
        assert(drive(p, m, action) == drive(p_next, m2, a2));
        let (p_again, a3) = p_next.wake();
        assert(a3 == ActionView::Publish(request));
        assert(p_again.phase == (PhaseView::Processing { split, failures: (failures + 1) as u32 }));
        assert(p_next.wf());
        assert(drive(p_next, m2, a2) == drive(p_again, m2, a3));
        assert(m2.calm() == (MetastoreView { calls: m2.calls, ..m.calm() }));
        assert(m2.calm().answer(request) == m.calm().answer(request));
        lemma_drive_outlasts_faults(p_again, m2, split, (failures + 1) as u32);
        let (p_last, m4, a4) = drive(p_again, m2, a3);
        assert(acknowledged(p_again, split) == acknowledged(p, split));
        assert(m2.calm().after(request).indexes == m.calm().after(request).indexes);
        assert(m4.calls =~= m.calls + repeated(request, (m.faults + 1) as nat)) by {
            assert(m2.calls == m.calls.push(request));
            assert(m4.calls == m2.calls + repeated(request, m.faults as nat));
        }
    }
}

/// Transient faults short of the retry bound are outlasted. An idle
/// publisher is handed a valid split, and the metastore fails transiently
/// fewer times than the policy allows and would then let the request
/// succeed. Then the message is acknowledged, the publisher is idle again
/// with the segment counted and recorded as the last one published, the
/// segment is visible in its index, and the metastore has seen one call for
/// every fault and one more.
pub proof fn lemma_transient_faults_are_outlasted(
    p: PublisherView,
    m: MetastoreView,
    split: SplitView,
)
    requires
        p.wf(),
        p.phase is Idle,
        p.valid(split),
        m.faults == 0 || m.faults < p.policy.max_attempts,
        succeeds(m, split.request()),
    ensures
        ({
            let (p_next, m2, a2) = delivered(p, m, split);
            &&& a2 == ActionView::Acknowledge
            &&& p_next == acknowledged(p, split)
            &&& m2.faults == 0
            &&& m2.indexes == m.calm().after(split.request()).indexes
            &&& m2.indexes.dom().contains(split.index_id)
            &&& m2.indexes[split.index_id].holds(split.segment_id)
            &&& m2.calls == m.calls + repeated(split.request(), (m.faults + 1) as nat)
        }),
{
    let (p_taken, a1) = p.accept(split);
    lemma_drive_outlasts_faults(p_taken, m, split, 0);
    assert(acknowledged(p_taken, split) == acknowledged(p, split));
    let request = split.request();
    let calm = m.calm();
    if calm.answer(request) is Ok {
        let index = calm.indexes[request.index_id].commit(request);
        assert(index.segments[index.segments.len() - 1].segment_id == split.segment_id);
    }
}

/// Publishing the same split twice makes one visible segment and two
/// acknowledgements. An idle publisher is handed a valid split twice in a
/// row, on a metastore that fails transiently fewer times than the policy
/// allows and would then let the request succeed. Then both messages are
/// acknowledged and counted, the second leaves the indexes as the first
/// made them, and exactly one visible segment of the index has the
/// identifier of the split.
pub proof fn lemma_republishing_is_idempotent(p: PublisherView, m: MetastoreView, split: SplitView)
    requires
        p.wf(),
        p.phase is Idle,
        p.valid(split),
        m.wf(),
        m.faults == 0 || m.faults < p.policy.max_attempts,
        succeeds(m, split.request()),
    ensures
        ({
            let (p_taken, m1, a1) = delivered(p, m, split);
            let (p_next, m2, a2) = delivered(p_taken, m1, split);
            &&& a1 == ActionView::Acknowledge
            &&& a2 == ActionView::Acknowledge
            &&& p_next.observable.published_count == bumped(bumped(p.observable.published_count))
            &&& m2.indexes == m1.indexes
            &&& m2.indexes.dom().contains(split.index_id)
            &&& m2.indexes[split.index_id].holds_once(split.segment_id)
        }),
{
    let request = split.request();
    lemma_transient_faults_are_outlasted(p, m, split);
    let (p_taken, m1, a1) = delivered(p, m, split);
    lemma_publish_keeps_wf(m.calm(), request);
    assert(m1.wf()) by {
        assert(m1.indexes == m.calm().after(request).indexes);
    }
    assert(m1.calm().answer(request) == Err::<(), crate::metastore::ConflictKind>(
        crate::metastore::ConflictKind::AlreadyPublished,
    ));
    lemma_transient_faults_are_outlasted(p_taken, m1, split);
    let (p_next, m2, a2) = delivered(p_taken, m1, split);
    assert(m1.calm().after(request).indexes == m1.indexes);
    let index = m2.indexes[split.index_id];
    assert(index.wf());
    let i = choose|i: int|
        0 <= i < index.segments.len() && index.segments[i].segment_id == split.segment_id;
    assert forall|j: int|
        0 <= j < index.segments.len() && index.segments[j].segment_id
            == split.segment_id implies j == i by {
        if j < i {
            assert(index.segments[j].segment_id != index.segments[i].segment_id);
        } else if i < j {
            assert(index.segments[i].segment_id != index.segments[j].segment_id);
        }
    }
}

/// Hands the publisher one message after the other, each carried through
/// to its end before the next is taken up.
pub open spec fn delivered_all(p: PublisherView, m: MetastoreView, splits: Seq<SplitView>) -> (
    PublisherView,
    MetastoreView,
)
    decreases splits.len(),
{
    if splits.len() == 0 {
        (p, m)
    } else {
        let (p_taken, m1, _) = delivered(p, m, splits[0]);
        delivered_all(p_taken, m1, splits.skip(1))
    }
}

/// The requests in their order, the `i`-th of them `counts[i]` times over.
pub open spec fn blocks(requests: Seq<RequestView>, counts: Seq<nat>) -> Seq<RequestView>
    decreases requests.len(),
{
    if requests.len() == 0 || counts.len() == 0 {
        Seq::empty()
    } else {
        repeated(requests[0], counts[0]) + blocks(requests.skip(1), counts.skip(1))
    }
}

/// The requests that publish the splits, in the order of the splits.
pub open spec fn requests_of(splits: Seq<SplitView>) -> Seq<RequestView> {
    splits.map_values(|s: SplitView| s.request())
}

/// Whether the run that `action` starts is at work on `split`.
spec fn at_work_on(p: PublisherView, action: ActionView, split: SplitView) -> bool {
    match p.phase {
        PhaseView::Processing { split: s, .. } => s == split && action == ActionView::Publish(
            split.request(),
        ),
        PhaseView::Backoff { split: s, .. } => s == split && action is Wait,
        _ => false,
    }
}

proof fn lemma_drive_calls(p: PublisherView, m: MetastoreView, action: ActionView, split: SplitView)
    requires
        p.wf(),
        !p.stop_requested,
        at_work_on(p, action, split),
    ensures
        ({
            let (p_next, m2, a2) = drive(p, m, action);
            &&& p_next.wf()
            &&& p_next.phase is Idle
            &&& p_next.indexes == p.indexes
            &&& p_next.policy == p.policy
            &&& m2.calls.len() >= m.calls.len()
            &&& action is Publish ==> m2.calls.len() > m.calls.len()
            &&& m2.calls == m.calls + repeated(
                split.request(),
                (m2.calls.len() - m.calls.len()) as nat,
            )
        }),
    decreases budget(p),
{
    let request = split.request();
    match action {
        ActionView::Publish(_) => {
            let (p_next, a2) = p.settle(PublishOutcome::of(m.answer(request)));
            let m2 = m.after(request);
            assert(m2.calls == m.calls.push(request));
            if a2 is Wait {
                assert(drive(p, m, action) == drive(p_next, m2, a2));
                lemma_drive_calls(p_next, m2, a2, split);
                let (p_again, m3, a3) = drive(p_next, m2, a2);
                assert(m3.calls =~= m.calls + repeated(
                    request,
                    (m3.calls.len() - m.calls.len()) as nat,
                ));
            } else {
                assert(drive(p, m, action) == (p_next, m2, a2));
                assert(m2.calls =~= m.calls + repeated(request, 1));
            }
        },
        ActionView::Wait(_) => {
            let (p_next, a2) = p.wake();
            if a2 is Publish {
                assert(drive(p, m, action) == drive(p_next, m, a2));
                lemma_drive_calls(p_next, m, a2, split);
            } else {
                assert(drive(p, m, action) == (p_next, m, a2));
                assert(m.calls =~= m.calls + repeated(request, 0));
            }
        },
        _ => {},
    }
}

/// One message, carried through, leaves an idle publisher idle, and adds to
/// the calls that the metastore has seen nothing but the request of that
/// message: at least once where the split is valid, never where it is not.
pub proof fn lemma_one_message_calls(p: PublisherView, m: MetastoreView, split: SplitView)
    requires
        p.wf(),
        p.phase is Idle,
    ensures
        ({
            let (p_next, m2, a2) = delivered(p, m, split);
            let n = m2.calls.len() - m.calls.len();
            &&& p_next.wf()
            &&& p_next.phase is Idle
            &&& p_next.indexes == p.indexes
            &&& p_next.policy == p.policy
            &&& n >= 0
            &&& p.valid(split) <==> n >= 1
            &&& m2.calls == m.calls + repeated(split.request(), n as nat)
        }),
{
    let (p_taken, a1) = p.accept(split);
    if p.valid(split) {
        lemma_drive_calls(p_taken, m, a1, split);
    } else {
        assert(drive(p_taken, m, a1) == (p_taken, m, a1));
        assert(m.calls =~= m.calls + repeated(split.request(), 0));
    }
}

/// How often the request of each split reaches the metastore.
spec fn attempt_counts(p: PublisherView, m: MetastoreView, splits: Seq<SplitView>) -> Seq<nat>
    decreases splits.len(),
{
    if splits.len() == 0 {
        Seq::empty()
    } else {
        let (p_taken, m1, _) = delivered(p, m, splits[0]);
        seq![(m1.calls.len() - m.calls.len()) as nat] + attempt_counts(p_taken, m1, splits.skip(1))
    }
}

proof fn lemma_calls_in_blocks(p: PublisherView, m: MetastoreView, splits: Seq<SplitView>)
    requires
        p.wf(),
        p.phase is Idle,
    ensures
        ({
            let counts = attempt_counts(p, m, splits);
            &&& counts.len() == splits.len()
            &&& forall|i: int|
                0 <= i < splits.len() ==> (p.valid(splits[i]) <==> #[trigger] counts[i] >= 1)
            &&& delivered_all(p, m, splits).1.calls == m.calls + blocks(requests_of(splits), counts)
        }),
    decreases splits.len(),
{
    let counts = attempt_counts(p, m, splits);
    let requests = requests_of(splits);
    if splits.len() == 0 {
        assert(m.calls =~= m.calls + blocks(requests, counts));
    } else {
        let first = splits[0];
        let rest = splits.skip(1);
        let (p_taken, m1, _) = delivered(p, m, first);
        let n = (m1.calls.len() - m.calls.len()) as nat;
        lemma_one_message_calls(p, m, first);
        lemma_calls_in_blocks(p_taken, m1, rest);
        let later = attempt_counts(p_taken, m1, rest);
        assert(counts == seq![n] + later);
        assert(counts.skip(1) =~= later);
        assert(requests.skip(1) =~= requests_of(rest));
        assert(requests[0] == first.request());
        assert(blocks(requests, counts) == repeated(first.request(), n) + blocks(
            requests_of(rest),
            later,
        ));
        assert forall|i: int| 0 <= i < splits.len() implies (p.valid(splits[i]) <==> #[trigger] counts[i]
            >= 1) by {
            if i > 0 {
                assert(splits[i] == rest[i - 1]);
                assert(counts[i] == later[i - 1]);
                assert(p_taken.valid(rest[i - 1]) == p.valid(rest[i - 1]));
            }
        }
        assert(delivered_all(p, m, splits).1.calls =~= m.calls + blocks(requests, counts));
    }
}

/// The metastore sees the messages in the order of their arrival. An idle
/// publisher is handed the splits one after the other. Then the calls that
/// reach the metastore are the requests of the splits in that order, each
/// request repeated for its retries and followed by no call for an earlier
/// split: a valid split is asked for at least once, an invalid one never.
pub proof fn lemma_publish_order(p: PublisherView, m: MetastoreView, splits: Seq<SplitView>)
    requires
        p.wf(),
        p.phase is Idle,
    ensures
        exists|counts: Seq<nat>|
            {
                &&& counts.len() == splits.len()
                &&& forall|i: int|
                    0 <= i < splits.len() ==> (p.valid(splits[i]) <==> #[trigger] counts[i] >= 1)
                &&& delivered_all(p, m, splits).1.calls == m.calls + blocks(
                    requests_of(splits),
                    counts,
                )
            },
{
    lemma_calls_in_blocks(p, m, splits);
    let counts = attempt_counts(p, m, splits);
    assert({
        &&& counts.len() == splits.len()
        &&& forall|i: int|
            0 <= i < splits.len() ==> (p.valid(splits[i]) <==> #[trigger] counts[i] >= 1)
        &&& delivered_all(p, m, splits).1.calls == m.calls + blocks(requests_of(splits), counts)
    });
}

} // verus!
