//! What holds of the workflow on every record, proved over the steps that the
//! operations are stated by.
use vstd::prelude::*;
use crate::keys::{
    lemma_submit_keys_differ, lemma_task_keys_differ, submit_key_text, task_key_text,
};
use crate::store::FactoryView;
use crate::types::{Error, TaskStatus};

verus! {

/// The record after publishing one story for each entry of `calls` (author,
/// content reference), in order.
pub open spec fn after_publishing(s: FactoryView, calls: Seq<(Seq<char>, Seq<char>)>) -> FactoryView
    decreases calls.len(),
{
    if calls.len() == 0 {
        s
    } else {
        after_publishing(s, calls.drop_last()).publish_story(calls.last().0, calls.last().1).0
    }
}

/// Story ids are handed out in order, without gaps or repeats: after any run of
/// publications from the initial record, the next one returns the run's length
/// plus one, stores the story under that id, and starts its tasks at 1.
pub proof fn lemma_story_ids_count_up(
    calls: Seq<(Seq<char>, Seq<char>)>,
    from: Seq<char>,
    cid: Seq<char>,
)
    requires
        calls.len() + 1 <= u64::MAX,
    ensures
        after_publishing(FactoryView::initial(), calls).publish_story(from, cid).1 == Ok::<
            u64,
            Error,
        >((calls.len() + 1) as u64),
        after_publishing(FactoryView::initial(), calls).next_sid == calls.len() + 1,
        ({
            let t = after_publishing(FactoryView::initial(), calls).publish_story(from, cid).0;
            let id = (calls.len() + 1) as u64;
            &&& t.stories.contains_key(id)
            &&& t.stories[id].story_id == id
            &&& t.stories[id].next_task_id == 1
        }),
    decreases calls.len(),
{
    if calls.len() > 0 {
        lemma_story_ids_count_up(calls.drop_last(), calls.last().0, calls.last().1);
    }
}

/// Task ids are handed out in order within a story: a task created by the
/// story's author gets the story's next task id and starts its submissions at
/// 1, and the task created after it gets the id that follows.
pub proof fn lemma_task_ids_count_up(
    s: FactoryView,
    from: Seq<char>,
    story_id: u64,
    cid: Seq<char>,
    nft_address: Seq<char>,
    reward_nfts: i128,
)
    requires
        s.create_task(from, story_id, cid, nft_address, reward_nfts).1 is Ok,
        s.stories[story_id].next_task_id < u64::MAX,
    ensures
        ({
            let n = s.stories[story_id].next_task_id;
            let t = s.create_task(from, story_id, cid, nft_address, reward_nfts).0;
            let u = t.create_task(from, story_id, cid, nft_address, reward_nfts).0;
            &&& t.story_task.contains_key(task_key_text(story_id, n))
            &&& t.story_task[task_key_text(story_id, n)].id == n
            &&& t.story_task[task_key_text(story_id, n)].next_submit_id == 1
            &&& t.stories[story_id].next_task_id == n + 1
            &&& u.story_task[task_key_text(story_id, (n + 1) as u64)].id == n + 1
        }),
{
}

/// Submission ids are handed out in order within a task: a submission gets the
/// task's next submission id, and the submission after it gets the id that
/// follows.
pub proof fn lemma_submit_ids_count_up(
    s: FactoryView,
    from: Seq<char>,
    story_id: u64,
    task_id: u64,
    cid: Seq<char>,
)
    requires
        s.create_task_submit(from, story_id, task_id, cid).1 is Ok,
        s.story_task[task_key_text(story_id, task_id)].next_submit_id < u64::MAX,
    ensures
        ({
            let n = s.story_task[task_key_text(story_id, task_id)].next_submit_id;
            let t = s.create_task_submit(from, story_id, task_id, cid).0;
            &&& t.task_submit.contains_key(submit_key_text(story_id, task_id, n))
            &&& t.task_submit[submit_key_text(story_id, task_id, n)].id == n
            &&& t.story_task[task_key_text(story_id, task_id)].next_submit_id == n + 1
            &&& t.create_task_submit(from, story_id, task_id, cid).0.task_submit[submit_key_text(
                story_id,
                task_id,
                (n + 1) as u64,
            )].id == n + 1
        }),
{
}

/// Only the owner mutates: on a story that exists and is not `actor`'s, on a
/// task that exists and is not `actor`'s, and on a submission that exists and
/// is not `actor`'s, every mutating operation answers `NotAuthor` and leaves
/// the record as it was. Approval belongs to the task's creator.
pub proof fn lemma_only_owner_mutates(
    s: FactoryView,
    actor: Seq<char>,
    story_id: u64,
    task_id: u64,
    submit_id: u64,
    cid: Seq<char>,
    nft_address: Seq<char>,
    reward_nfts: i128,
)
    ensures
        s.stories.contains_key(story_id) && s.stories[story_id].author != actor ==> {
            &&& s.update_story(actor, story_id, cid) == (s, Err::<u64, Error>(Error::NotAuthor))
            &&& s.create_task(actor, story_id, cid, nft_address, reward_nfts) == (
                s,
                Err::<u64, Error>(Error::NotAuthor),
            )
        },
        s.story_task.contains_key(task_key_text(story_id, task_id)) && s.story_task[task_key_text(
            story_id,
            task_id,
        )].creator != actor ==> {
            &&& s.update_task(actor, story_id, task_id, cid) == (
                s,
                Err::<u64, Error>(Error::NotAuthor),
            )
            &&& s.cancel_task(actor, story_id, task_id) == (s, Err::<u64, Error>(Error::NotAuthor))
            &&& s.mark_task_done(actor, story_id, task_id, submit_id) == (
                s,
                Err::<u64, Error>(Error::NotAuthor),
            )
        },
        s.task_submit.contains_key(submit_key_text(story_id, task_id, submit_id))
            && s.task_submit[submit_key_text(story_id, task_id, submit_id)].creator != actor
            ==> s.withdraw_task_submit(actor, story_id, task_id, submit_id) == (
            s,
            Err::<u64, Error>(Error::NotAuthor),
        ),
{
}

/// Submissions are accepted exactly while the task is `Todo`: on a task that
/// exists, submitting succeeds if and only if its status is `Todo`; otherwise
/// it answers `StoryTaskDone`, leaves the record as it was, and so answers the
/// same however often it is tried again.
pub proof fn lemma_submissions_need_todo(
    s: FactoryView,
    from: Seq<char>,
    story_id: u64,
    task_id: u64,
    cid: Seq<char>,
)
    requires
        s.story_task.contains_key(task_key_text(story_id, task_id)),
    ensures
        s.create_task_submit(from, story_id, task_id, cid).1 is Ok <==> s.story_task[task_key_text(
            story_id,
            task_id,
        )].status == TaskStatus::Todo,
        s.story_task[task_key_text(story_id, task_id)].status != TaskStatus::Todo
            ==> s.create_task_submit(from, story_id, task_id, cid) == (
            s,
            Err::<u64, Error>(Error::StoryTaskDone),
        ),
{
}

/// A task that was approved or cancelled takes no further submission.
pub proof fn lemma_closed_task_refuses(
    s: FactoryView,
    closer: Seq<char>,
    from: Seq<char>,
    story_id: u64,
    task_id: u64,
    submit_id: u64,
    cid: Seq<char>,
)
    ensures
        s.mark_task_done(closer, story_id, task_id, submit_id).1 is Ok ==> s.mark_task_done(
            closer,
            story_id,
            task_id,
            submit_id,
        ).0.create_task_submit(from, story_id, task_id, cid).1 == Err::<u64, Error>(
            Error::StoryTaskDone,
        ),
        s.cancel_task(closer, story_id, task_id).1 is Ok ==> s.cancel_task(
            closer,
            story_id,
            task_id,
        ).0.create_task_submit(from, story_id, task_id, cid).1 == Err::<u64, Error>(
            Error::StoryTaskDone,
        ),
{
}

/// Reading changes nothing: what was read, stored and read again is what was
/// read the first time, however often that is done.
pub proof fn lemma_reading_is_idempotent(stored: Option<FactoryView>)
    ensures
        FactoryView::loaded(Some(FactoryView::loaded(stored))) == FactoryView::loaded(stored),
        stored is Some ==> FactoryView::loaded(stored) == stored.unwrap(),
{
}

/// All or nothing: an operation that answers with an error leaves the record
/// as it was.
pub proof fn lemma_errors_change_nothing(
    s: FactoryView,
    from: Seq<char>,
    story_id: u64,
    task_id: u64,
    submit_id: u64,
    cid: Seq<char>,
    nft_address: Seq<char>,
    reward_nfts: i128,
)
    ensures
        s.publish_story(from, cid).1 is Ok,
        s.update_story(from, story_id, cid).1 is Err ==> s.update_story(from, story_id, cid).0 == s,
        s.create_task(from, story_id, cid, nft_address, reward_nfts).1 is Err ==> s.create_task(
            from,
            story_id,
            cid,
            nft_address,
            reward_nfts,
        ).0 == s,
        s.update_task(from, story_id, task_id, cid).1 is Err ==> s.update_task(
            from,
            story_id,
            task_id,
            cid,
        ).0 == s,
        s.cancel_task(from, story_id, task_id).1 is Err ==> s.cancel_task(
            from,
            story_id,
            task_id,
        ).0 == s,
        s.create_task_submit(from, story_id, task_id, cid).1 is Err ==> s.create_task_submit(
            from,
            story_id,
            task_id,
            cid,
        ).0 == s,
        s.withdraw_task_submit(from, story_id, task_id, submit_id).1 is Err
            ==> s.withdraw_task_submit(from, story_id, task_id, submit_id).0 == s,
        s.mark_task_done(from, story_id, task_id, submit_id).1 is Err ==> s.mark_task_done(
            from,
            story_id,
            task_id,
            submit_id,
        ).0 == s,
{
}

impl FactoryView {
    /// Every entity sits under an id that its counter has handed out: stories
    /// below the story counter, tasks under an existing story and below its
    /// task counter, submissions under an existing task and below its
    /// submission counter; each entity records the id it is stored under.
    pub open spec fn consistent(self) -> bool {
        &&& self.next_sid >= 1
        &&& forall|id: u64| #[trigger]
            self.stories.contains_key(id) ==> {
                &&& 1 <= id < self.next_sid
                &&& self.stories[id].story_id == id
                &&& self.stories[id].next_task_id >= 1
            }
        &&& forall|s: u64, t: u64| #[trigger]
            self.story_task.contains_key(task_key_text(s, t)) ==> {
                &&& self.stories.contains_key(s)
                &&& 1 <= t < self.stories[s].next_task_id
                &&& self.story_task[task_key_text(s, t)].id == t
                &&& self.story_task[task_key_text(s, t)].next_submit_id >= 1
            }
        &&& forall|s: u64, t: u64, u: u64| #[trigger]
            self.task_submit.contains_key(submit_key_text(s, t, u)) ==> {
                &&& self.story_task.contains_key(task_key_text(s, t))
                &&& 1 <= u < self.story_task[task_key_text(s, t)].next_submit_id
                &&& self.task_submit[submit_key_text(s, t, u)].id == u
            }
    }

    /// Whatever `self` holds, `after` holds under the same key.
    pub open spec fn keeps_entities_of(self, after: FactoryView) -> bool {
        &&& self.next_sid <= after.next_sid
        &&& self.stories.dom().subset_of(after.stories.dom())
        &&& self.story_task.dom().subset_of(after.story_task.dom())
        &&& self.task_submit.dom().subset_of(after.task_submit.dom())
    }
}

/// The initial record is consistent.
pub proof fn lemma_initial_is_consistent()
    ensures
        FactoryView::initial().consistent(),
{
}

/// Publishing keeps the record consistent and overwrites no story.
pub proof fn lemma_publish_story_keeps_consistent(s: FactoryView, from: Seq<char>, cid: Seq<char>)
    requires
        s.consistent(),
        s.next_sid < u64::MAX,
    ensures
        !s.stories.contains_key(s.next_sid),
        s.publish_story(from, cid).0.consistent(),
{
}

/// Creating a task keeps the record consistent and overwrites no task.
pub proof fn lemma_create_task_keeps_consistent(
    s: FactoryView,
    from: Seq<char>,
    story_id: u64,
    cid: Seq<char>,
    nft_address: Seq<char>,
    reward_nfts: i128,
)
    requires
        s.consistent(),
        s.create_task(from, story_id, cid, nft_address, reward_nfts).1 is Ok,
        s.stories[story_id].next_task_id < u64::MAX,
    ensures
        !s.story_task.contains_key(task_key_text(story_id, s.stories[story_id].next_task_id)),
        s.create_task(from, story_id, cid, nft_address, reward_nfts).0.consistent(),
{
    let n = s.stories[story_id].next_task_id;
    let t = s.create_task(from, story_id, cid, nft_address, reward_nfts).0;
    assert forall|s2: u64, t2: u64| #[trigger]
        t.story_task.contains_key(task_key_text(s2, t2)) implies {
        &&& t.stories.contains_key(s2)
        &&& 1 <= t2 < t.stories[s2].next_task_id
        &&& t.story_task[task_key_text(s2, t2)].id == t2
        &&& t.story_task[task_key_text(s2, t2)].next_submit_id >= 1
    } by {
        lemma_task_keys_differ(s2, t2, story_id, n);
    }
    assert forall|s2: u64, t2: u64, u2: u64| #[trigger]
        t.task_submit.contains_key(submit_key_text(s2, t2, u2)) implies {
        &&& t.story_task.contains_key(task_key_text(s2, t2))
        &&& 1 <= u2 < t.story_task[task_key_text(s2, t2)].next_submit_id
        &&& t.task_submit[submit_key_text(s2, t2, u2)].id == u2
    } by {
        lemma_task_keys_differ(s2, t2, story_id, n);
    }
}

/// Submitting keeps the record consistent and overwrites no submission.
pub proof fn lemma_create_task_submit_keeps_consistent(
    s: FactoryView,
    from: Seq<char>,
    story_id: u64,
    task_id: u64,
    cid: Seq<char>,
)
    requires
        s.consistent(),
        s.create_task_submit(from, story_id, task_id, cid).1 is Ok,
        s.story_task[task_key_text(story_id, task_id)].next_submit_id < u64::MAX,
    ensures
        !s.task_submit.contains_key(
            submit_key_text(
                story_id,
                task_id,
                s.story_task[task_key_text(story_id, task_id)].next_submit_id,
            ),
        ),
        s.create_task_submit(from, story_id, task_id, cid).0.consistent(),
{
    let n = s.story_task[task_key_text(story_id, task_id)].next_submit_id;
    let t = s.create_task_submit(from, story_id, task_id, cid).0;
    assert forall|s2: u64, t2: u64| #[trigger]
        t.story_task.contains_key(task_key_text(s2, t2)) implies {
        &&& t.stories.contains_key(s2)
        &&& 1 <= t2 < t.stories[s2].next_task_id
        &&& t.story_task[task_key_text(s2, t2)].id == t2
        &&& t.story_task[task_key_text(s2, t2)].next_submit_id >= 1
    } by {
        lemma_task_keys_differ(s2, t2, story_id, task_id);
    }
    assert forall|s2: u64, t2: u64, u2: u64| #[trigger]
        t.task_submit.contains_key(submit_key_text(s2, t2, u2)) implies {
        &&& t.story_task.contains_key(task_key_text(s2, t2))
        &&& 1 <= u2 < t.story_task[task_key_text(s2, t2)].next_submit_id
        &&& t.task_submit[submit_key_text(s2, t2, u2)].id == u2
    } by {
        lemma_submit_keys_differ(s2, t2, u2, story_id, task_id, n);
        lemma_task_keys_differ(s2, t2, story_id, task_id);
    }
}

/// The operations that create nothing keep the record consistent.
pub proof fn lemma_updates_keep_consistent(
    s: FactoryView,
    from: Seq<char>,
    story_id: u64,
    task_id: u64,
    submit_id: u64,
    cid: Seq<char>,
)
    requires
        s.consistent(),
    ensures
        s.update_story(from, story_id, cid).0.consistent(),
        s.update_task(from, story_id, task_id, cid).0.consistent(),
        s.cancel_task(from, story_id, task_id).0.consistent(),
        s.withdraw_task_submit(from, story_id, task_id, submit_id).0.consistent(),
        s.mark_task_done(from, story_id, task_id, submit_id).0.consistent(),
{
}

/// Nothing is ever removed: after any operation the record holds an entity
/// under every key under which it held one before, and no counter went back.
pub proof fn lemma_nothing_is_removed(
    s: FactoryView,
    from: Seq<char>,
    story_id: u64,
    task_id: u64,
    submit_id: u64,
    cid: Seq<char>,
    nft_address: Seq<char>,
    reward_nfts: i128,
)
    requires
        s.next_sid < u64::MAX,
    ensures
        s.keeps_entities_of(s.publish_story(from, cid).0),
        s.keeps_entities_of(s.update_story(from, story_id, cid).0),
        s.keeps_entities_of(s.create_task(from, story_id, cid, nft_address, reward_nfts).0),
        s.keeps_entities_of(s.update_task(from, story_id, task_id, cid).0),
        s.keeps_entities_of(s.cancel_task(from, story_id, task_id).0),
        s.keeps_entities_of(s.create_task_submit(from, story_id, task_id, cid).0),
        s.keeps_entities_of(s.withdraw_task_submit(from, story_id, task_id, submit_id).0),
        s.keeps_entities_of(s.mark_task_done(from, story_id, task_id, submit_id).0),
{
}

} // verus!
