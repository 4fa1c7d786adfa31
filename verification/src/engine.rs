//! The operations of the workflow, each stated as a step of the root record's
//! mathematical value and carried out on the stored record.
use vstd::prelude::*;
use crate::keys::{submit_key_text, task_key_text, Processing};
use crate::laws::{
    lemma_create_task_keeps_consistent, lemma_create_task_submit_keeps_consistent,
    lemma_publish_story_keeps_consistent, lemma_updates_keep_consistent,
};
use crate::store::{FactoryView, StoryFactory};
use crate::types::{
    Error, Story, StoryView, Submit, SubmitStatus, SubmitView, Task, TaskStatus, TaskView,
};

verus! {

/// Whether the caller is the recorded owner, asked before every mutation.
pub open spec fn is_owner(actor: Seq<char>, recorded_owner: Seq<char>) -> bool {
    actor == recorded_owner
}

impl FactoryView {
    /// Reading: the stored record where there is one, else the initial one.
    pub open spec fn loaded(stored: Option<FactoryView>) -> FactoryView {
        match stored {
            Some(s) => s,
            None => FactoryView::initial(),
        }
    }

    /// Publishing: the story gets the next story id and starts its tasks at 1.
    pub open spec fn publish_story(self, from: Seq<char>, cid: Seq<char>) -> (
        FactoryView,
        Result<u64, Error>,
    ) {
        let story = StoryView { story_id: self.next_sid, author: from, cid, next_task_id: 1 };
        (
            FactoryView {
                next_sid: (self.next_sid + 1) as u64,
                stories: self.stories.insert(self.next_sid, story),
                ..self
            },
            Ok(self.next_sid),
        )
    }

    /// Replacing a story's content reference, by its author alone.
    pub open spec fn update_story(self, from: Seq<char>, story_id: u64, cid: Seq<char>) -> (
        FactoryView,
        Result<u64, Error>,
    ) {
        if !self.stories.contains_key(story_id) {
            (self, Err(Error::NotFoundStory))
        } else if !is_owner(from, self.stories[story_id].author) {
            (self, Err(Error::NotAuthor))
        } else {
            let story = StoryView { cid, ..self.stories[story_id] };
            (FactoryView { stories: self.stories.insert(story_id, story), ..self }, Ok(story_id))
        }
    }

    /// Attaching a task to a story, by the story's author alone: the task gets
    /// the story's next task id, status `Todo`, and starts its submissions at 1.
    pub open spec fn create_task(
        self,
        from: Seq<char>,
        story_id: u64,
        cid: Seq<char>,
        nft_address: Seq<char>,
        reward_nfts: i128,
    ) -> (FactoryView, Result<u64, Error>) {
        if !self.stories.contains_key(story_id) {
            (self, Err(Error::NotFoundStory))
        } else if !is_owner(from, self.stories[story_id].author) {
            (self, Err(Error::NotAuthor))
        } else {
            let story = self.stories[story_id];
            let task = TaskView {
                id: story.next_task_id,
                cid,
                creator: from,
                nft_address,
                reward_nfts,
                status: TaskStatus::Todo,
                next_submit_id: 1,
            };
            let bumped = StoryView { next_task_id: (story.next_task_id + 1) as u64, ..story };
            (
                FactoryView {
                    stories: self.stories.insert(story_id, bumped),
                    story_task: self.story_task.insert(
                        task_key_text(story_id, story.next_task_id),
                        task,
                    ),
                    ..self
                },
                Ok(story_id),
            )
        }
    }

    /// Replacing a task's content reference, by its creator alone, whatever
    /// the task's status.
    pub open spec fn update_task(
        self,
        from: Seq<char>,
        story_id: u64,
        task_id: u64,
        cid: Seq<char>,
    ) -> (FactoryView, Result<u64, Error>) {
        let key = task_key_text(story_id, task_id);
        if !self.story_task.contains_key(key) {
            (self, Err(Error::NotFoundStoryTask))
        } else if !is_owner(from, self.story_task[key].creator) {
            (self, Err(Error::NotAuthor))
        } else {
            let task = TaskView { cid, ..self.story_task[key] };
            (FactoryView { story_task: self.story_task.insert(key, task), ..self }, Ok(story_id))
        }
    }

    /// Cancelling a task, by its creator alone, whatever the task's status.
    pub open spec fn cancel_task(self, from: Seq<char>, story_id: u64, task_id: u64) -> (
        FactoryView,
        Result<u64, Error>,
    ) {
        let key = task_key_text(story_id, task_id);
        if !self.story_task.contains_key(key) {
            (self, Err(Error::NotFoundStoryTask))
        } else if !is_owner(from, self.story_task[key].creator) {
            (self, Err(Error::NotAuthor))
        } else {
            let task = TaskView { status: TaskStatus::Cancelled, ..self.story_task[key] };
            (FactoryView { story_task: self.story_task.insert(key, task), ..self }, Ok(story_id))
        }
    }

    /// Submitting work to a task that is still `Todo`, by anyone: the submission
    /// gets the task's next submission id and status `Pending`.
    pub open spec fn create_task_submit(
        self,
        from: Seq<char>,
        story_id: u64,
        task_id: u64,
        cid: Seq<char>,
    ) -> (FactoryView, Result<u64, Error>) {
        let key = task_key_text(story_id, task_id);
        if !self.story_task.contains_key(key) {
            (self, Err(Error::NotFoundStoryTask))
        } else if self.story_task[key].status != TaskStatus::Todo {
            (self, Err(Error::StoryTaskDone))
        } else {
            let task = self.story_task[key];
            let submit = SubmitView {
                id: task.next_submit_id,
                cid,
                creator: from,
                status: SubmitStatus::Pending,
            };
            let bumped = TaskView { next_submit_id: (task.next_submit_id + 1) as u64, ..task };
            (
                FactoryView {
                    story_task: self.story_task.insert(key, bumped),
                    task_submit: self.task_submit.insert(
                        submit_key_text(story_id, task_id, task.next_submit_id),
                        submit,
                    ),
                    ..self
                },
                Ok(story_id),
            )
        }
    }

    /// Withdrawing a submission, by its creator alone.
    pub open spec fn withdraw_task_submit(
        self,
        from: Seq<char>,
        story_id: u64,
        task_id: u64,
        submit_id: u64,
    ) -> (FactoryView, Result<u64, Error>) {
        let key = submit_key_text(story_id, task_id, submit_id);
        if !self.task_submit.contains_key(key) {
            (self, Err(Error::NotFoundTaskSubmit))
        } else if !is_owner(from, self.task_submit[key].creator) {
            (self, Err(Error::NotAuthor))
        } else {
            let submit = SubmitView { status: SubmitStatus::Withdrawn, ..self.task_submit[key] };
            (FactoryView { task_submit: self.task_submit.insert(key, submit), ..self }, Ok(story_id))
        }
    }

    /// Approving a submission, by the task's creator alone: the task becomes
    /// `Done` and the submission `Approved`, whatever either was.
    pub open spec fn mark_task_done(
        self,
        from: Seq<char>,
        story_id: u64,
        task_id: u64,
        submit_id: u64,
    ) -> (FactoryView, Result<u64, Error>) {
        let task_key = task_key_text(story_id, task_id);
        let submit_key = submit_key_text(story_id, task_id, submit_id);
        if !self.story_task.contains_key(task_key) {
            (self, Err(Error::NotFoundStoryTask))
        } else if !is_owner(from, self.story_task[task_key].creator) {
            (self, Err(Error::NotAuthor))
        } else if !self.task_submit.contains_key(submit_key) {
            (self, Err(Error::NotFoundTaskSubmit))
        } else {
            let task = TaskView { status: TaskStatus::Done, ..self.story_task[task_key] };
            let submit = SubmitView {
                status: SubmitStatus::Approved,
                ..self.task_submit[submit_key]
            };
            (
                FactoryView {
                    story_task: self.story_task.insert(task_key, task),
                    task_submit: self.task_submit.insert(submit_key, submit),
                    ..self
                },
                Ok(story_id),
            )
        }
    }
}

/// The operations that callers invoke. Each takes the root record by
/// reference; the caller's identity has been established before the call.
pub struct StoryFactoryContract;

impl StoryFactoryContract {
    /// Whether `actor` is the recorded owner.
    pub fn is_owner(actor: &String, recorded_owner: &String) -> (b: bool)
        ensures
            b == self::is_owner(actor@, recorded_owner@),
    {
        *actor == *recorded_owner
    }

    /// Publishes a story by `from` and returns its id.
    pub fn publish_story(state: &mut StoryFactory, from: String, cid: String) -> (r: Result<
        u64,
        Error,
    >)
        requires
            old(state).wf(),
            old(state)@.next_sid < u64::MAX,
        ensures
            final(state).wf(),
            old(state)@.consistent() ==> final(state)@.consistent(),
            (final(state)@, r) == old(state)@.publish_story(from@, cid@),
    {
        proof {
            if state@.consistent() {
                lemma_publish_story_keeps_consistent(state@, from@, cid@);
            }
        }
        let story_id = state.next_sid();
        state.set_next_sid(story_id + 1);
        state.put_story(story_id, Story { story_id, author: from, cid, next_task_id: 1 });
        Ok(story_id)
    }

    /// Replaces the content reference of story `story_id`.
    pub fn update_story(state: &mut StoryFactory, from: String, story_id: u64, cid: String) -> (r:
        Result<u64, Error>)
        requires
            old(state).wf(),
        ensures
            final(state).wf(),
            old(state)@.consistent() ==> final(state)@.consistent(),
            (final(state)@, r) == old(state)@.update_story(from@, story_id, cid@),
            r is Err ==> *final(state) == *old(state),
    {
        proof {
            if state@.consistent() {
                lemma_updates_keep_consistent(state@, from@, story_id, 0, 0, cid@);
            }
        }
        match state.story(story_id) {
            Some(story) => {
                if Self::is_owner(&from, &story.author) {
                    state.put_story(
                        story_id,
                        Story {
                            story_id: story.story_id,
                            author: story.author,
                            cid,
                            next_task_id: story.next_task_id,
                        },
                    );
                    Ok(story_id)
                } else {
                    Err(Error::NotAuthor)
                }
            },
            None => Err(Error::NotFoundStory),
        }
    }

    /// Attaches a new task to story `story_id`.
    pub fn create_task(
        state: &mut StoryFactory,
        from: String,
        story_id: u64,
        cid: String,
        nft_address: String,
        reward_nfts: i128,
    ) -> (r: Result<u64, Error>)
        requires
            old(state).wf(),
            old(state)@.create_task(from@, story_id, cid@, nft_address@, reward_nfts).1 is Ok
                ==> old(state)@.stories[story_id].next_task_id < u64::MAX,
        ensures
            final(state).wf(),
            old(state)@.consistent() ==> final(state)@.consistent(),
            (final(state)@, r) == old(state)@.create_task(
                from@,
                story_id,
                cid@,
                nft_address@,
                reward_nfts,
            ),
            r is Err ==> *final(state) == *old(state),
    {
        proof {
            if state@.consistent() && state@.create_task(
                from@,
                story_id,
                cid@,
                nft_address@,
                reward_nfts,
            ).1 is Ok {
                lemma_create_task_keeps_consistent(
                    state@,
                    from@,
                    story_id,
                    cid@,
                    nft_address@,
                    reward_nfts,
                );
            }
        }
        match state.story(story_id) {
            Some(story) => {
                if Self::is_owner(&from, &story.author) {
                    let task_id = story.next_task_id;
                    let key = Processing::make_task_key(story_id, task_id);
                    let task = Task {
                        id: task_id,
                        cid,
                        creator: from,
                        nft_address,
                        reward_nfts,
                        status: TaskStatus::Todo,
                        next_submit_id: 1,
                    };
                    state.put_task(&key, task);
                    state.put_story(
                        story_id,
                        Story {
                            story_id: story.story_id,
                            author: story.author,
                            cid: story.cid,
                            next_task_id: task_id + 1,
                        },
                    );
                    Ok(story_id)
                } else {
                    Err(Error::NotAuthor)
                }
            },
            None => Err(Error::NotFoundStory),
        }
    }

    /// Replaces the content reference of a task.
    pub fn update_task(
        state: &mut StoryFactory,
        from: String,
        story_id: u64,
        task_id: u64,
        cid: String,
    ) -> (r: Result<u64, Error>)
        requires
            old(state).wf(),
        ensures
            final(state).wf(),
            old(state)@.consistent() ==> final(state)@.consistent(),
            (final(state)@, r) == old(state)@.update_task(from@, story_id, task_id, cid@),
            r is Err ==> *final(state) == *old(state),
    {
        proof {
            if state@.consistent() {
                lemma_updates_keep_consistent(state@, from@, story_id, task_id, 0, cid@);
            }
        }
        let key = Processing::make_task_key(story_id, task_id);
        match state.task(&key) {
            Some(task) => {
                if Self::is_owner(&from, &task.creator) {
                    state.put_task(
                        &key,
                        Task {
                            id: task.id,
                            cid,
                            creator: task.creator,
                            nft_address: task.nft_address,
                            reward_nfts: task.reward_nfts,
                            status: task.status,
                            next_submit_id: task.next_submit_id,
                        },
                    );
                    Ok(story_id)
                } else {
                    Err(Error::NotAuthor)
                }
            },
            None => Err(Error::NotFoundStoryTask),
        }
    }

    /// Cancels a task.
    pub fn cancel_task(state: &mut StoryFactory, from: String, story_id: u64, task_id: u64) -> (r:
        Result<u64, Error>)
        requires
            old(state).wf(),
        ensures
            final(state).wf(),
            old(state)@.consistent() ==> final(state)@.consistent(),
            (final(state)@, r) == old(state)@.cancel_task(from@, story_id, task_id),
            r is Err ==> *final(state) == *old(state),
    {
        proof {
            if state@.consistent() {
                lemma_updates_keep_consistent(state@, from@, story_id, task_id, 0, from@);
            }
        }
        let key = Processing::make_task_key(story_id, task_id);
        match state.task(&key) {
            Some(task) => {
                if Self::is_owner(&from, &task.creator) {
                    state.put_task(
                        &key,
                        Task {
                            id: task.id,
                            cid: task.cid,
                            creator: task.creator,
                            nft_address: task.nft_address,
                            reward_nfts: task.reward_nfts,
                            status: TaskStatus::Cancelled,
                            next_submit_id: task.next_submit_id,
                        },
                    );
                    Ok(story_id)
                } else {
                    Err(Error::NotAuthor)
                }
            },
            None => Err(Error::NotFoundStoryTask),
        }
    }

    /// Records a submission by `from` to a task.
    pub fn create_task_submit(
        state: &mut StoryFactory,
        from: String,
        story_id: u64,
        task_id: u64,
        cid: String,
    ) -> (r: Result<u64, Error>)
        requires
            old(state).wf(),
            old(state)@.create_task_submit(from@, story_id, task_id, cid@).1 is Ok ==> old(
                state,
            )@.story_task[task_key_text(story_id, task_id)].next_submit_id < u64::MAX,
        ensures
            final(state).wf(),
            old(state)@.consistent() ==> final(state)@.consistent(),
            (final(state)@, r) == old(state)@.create_task_submit(from@, story_id, task_id, cid@),
            r is Err ==> *final(state) == *old(state),
    {
        proof {
            if state@.consistent() && state@.create_task_submit(from@, story_id, task_id, cid@).1 is Ok {
                lemma_create_task_submit_keeps_consistent(state@, from@, story_id, task_id, cid@);
            }
        }
        let key = Processing::make_task_key(story_id, task_id);
        match state.task(&key) {
            Some(task) => {
                match task.status {
                    TaskStatus::Todo => {
                        let submit_id = task.next_submit_id;
                        let submit_key = Processing::make_submit_key(story_id, task_id, submit_id);
                        let submit = Submit {
                            id: submit_id,
                            cid,
                            creator: from,
                            status: SubmitStatus::Pending,
                        };
                        state.put_submit(&submit_key, submit);
                        state.put_task(
                            &key,
                            Task {
                                id: task.id,
                                cid: task.cid,
                                creator: task.creator,
                                nft_address: task.nft_address,
                                reward_nfts: task.reward_nfts,
                                status: task.status,
                                next_submit_id: submit_id + 1,
                            },
                        );
                        Ok(story_id)
                    },
                    _ => Err(Error::StoryTaskDone),
                }
            },
            None => Err(Error::NotFoundStoryTask),
        }
    }

    /// Withdraws a submission.
    pub fn withdraw_task_submit(
        state: &mut StoryFactory,
        from: String,
        story_id: u64,
        task_id: u64,
        submit_id: u64,
    ) -> (r: Result<u64, Error>)
        requires
            old(state).wf(),
        ensures
            final(state).wf(),
            old(state)@.consistent() ==> final(state)@.consistent(),
            (final(state)@, r) == old(state)@.withdraw_task_submit(
                from@,
                story_id,
                task_id,
                submit_id,
            ),
            r is Err ==> *final(state) == *old(state),
    {
        proof {
            if state@.consistent() {
                lemma_updates_keep_consistent(state@, from@, story_id, task_id, submit_id, from@);
            }
        }
        let key = Processing::make_submit_key(story_id, task_id, submit_id);
        match state.submit(&key) {
            Some(submit) => {
                if Self::is_owner(&from, &submit.creator) {
                    state.put_submit(
                        &key,
                        Submit {
                            id: submit.id,
                            cid: submit.cid,
                            creator: submit.creator,
                            status: SubmitStatus::Withdrawn,
                        },
                    );
                    Ok(story_id)
                } else {
                    Err(Error::NotAuthor)
                }
            },
            None => Err(Error::NotFoundTaskSubmit),
        }
    }

    /// Approves a submission and closes its task.
    pub fn mark_task_done(
        state: &mut StoryFactory,
        from: String,
        story_id: u64,
        task_id: u64,
        submit_id: u64,
    ) -> (r: Result<u64, Error>)
        requires
            old(state).wf(),
        ensures
            final(state).wf(),
            old(state)@.consistent() ==> final(state)@.consistent(),
            (final(state)@, r) == old(state)@.mark_task_done(from@, story_id, task_id, submit_id),
            r is Err ==> *final(state) == *old(state),
    {
        proof {
            if state@.consistent() {
                lemma_updates_keep_consistent(state@, from@, story_id, task_id, submit_id, from@);
            }
        }
        let task_key = Processing::make_task_key(story_id, task_id);
        let submit_key = Processing::make_submit_key(story_id, task_id, submit_id);
        match state.task(&task_key) {
            Some(task) => {
                if !Self::is_owner(&from, &task.creator) {
                    return Err(Error::NotAuthor);
                }
                match state.submit(&submit_key) {
                    Some(submit) => {
                        state.put_submit(
                            &submit_key,
                            Submit {
                                id: submit.id,
                                cid: submit.cid,
                                creator: submit.creator,
                                status: SubmitStatus::Approved,
                            },
                        );
                        state.put_task(
                            &task_key,
                            Task {
                                id: task.id,
                                cid: task.cid,
                                creator: task.creator,
                                nft_address: task.nft_address,
                                reward_nfts: task.reward_nfts,
                                status: TaskStatus::Done,
                                next_submit_id: task.next_submit_id,
                            },
                        );
                        Ok(story_id)
                    },
                    None => Err(Error::NotFoundTaskSubmit),
                }
            },
            None => Err(Error::NotFoundStoryTask),
        }
    }

    /// The current root record: the stored one where there is one, else a fresh
    /// record on the host behind `env`.
    pub fn get_state(env: &soroban_sdk::Env, stored: Option<StoryFactory>) -> (state: StoryFactory)
        requires
            stored is Some ==> stored.unwrap().wf(),
        ensures
            state.wf(),
            stored is Some ==> state == stored.unwrap(),
            state@ == FactoryView::loaded(
                match stored {
                    Some(s) => Some(s@),
                    None => None,
                },
            ),
    {
        match stored {
            Some(state) => state,
            None => StoryFactory::new(env),
        }
    }
}

} // verus!
