//! The entities of the workflow and their mathematical views.
use vstd::prelude::*;

verus! {

/// Why an operation was refused.
#[derive(Copy, Clone, Debug, PartialEq, Eq, Structural, PartialOrd, Ord)]
pub enum Error {
    /// The caller is not the recorded owner of the entity.
    NotAuthor,
    /// No story has the given id.
    NotFoundStory,
    /// Reserved; no operation returns it.
    NotFoundStoryNft,
    /// Reserved; no operation returns it.
    StoryNftSoldOut,
    /// No task has the given story id and task id.
    NotFoundStoryTask,
    /// The task no longer accepts submissions.
    StoryTaskDone,
    /// No submission has the given ids.
    NotFoundTaskSubmit,
}

impl Error {
    /// The number under which the error is reported to callers.
    pub open spec fn spec_code(self) -> u32 {
        match self {
            Error::NotAuthor => 1,
            Error::NotFoundStory => 2,
            Error::NotFoundStoryNft => 3,
            Error::StoryNftSoldOut => 4,
            Error::NotFoundStoryTask => 5,
            Error::StoryTaskDone => 6,
            Error::NotFoundTaskSubmit => 7,
        }
    }

    /// The number under which the error is reported to callers.
    pub fn code(self) -> (c: u32)
        ensures
            c == self.spec_code(),
    {
        match self {
            Error::NotAuthor => 1,
            Error::NotFoundStory => 2,
            Error::NotFoundStoryNft => 3,
            Error::StoryNftSoldOut => 4,
            Error::NotFoundStoryTask => 5,
            Error::StoryTaskDone => 6,
            Error::NotFoundTaskSubmit => 7,
        }
    }
}

/// Where a task stands. `Todo` is the only state that accepts submissions.
#[derive(Copy, Clone, Debug, PartialEq, Eq, Structural)]
pub enum TaskStatus {
    Todo,
    Done,
    Cancelled,
}

impl TaskStatus {
    /// The number stored for the status.
    pub open spec fn spec_code(self) -> u32 {
        match self {
            TaskStatus::Todo => 0,
            TaskStatus::Done => 1,
            TaskStatus::Cancelled => 2,
        }
    }

    /// The status stored as `c`; `Todo` where `c` stands for none.
    pub open spec fn spec_from_code(c: u32) -> TaskStatus {
        if c == 1 {
            TaskStatus::Done
        } else if c == 2 {
            TaskStatus::Cancelled
        } else {
            TaskStatus::Todo
        }
    }

    /// The number stored for the status.
    pub fn code(self) -> (c: u32)
        ensures
            c == self.spec_code(),
            c < 3,
            Self::spec_from_code(c) == self,
    {
        match self {
            TaskStatus::Todo => 0,
            TaskStatus::Done => 1,
            TaskStatus::Cancelled => 2,
        }
    }

    /// The status that `c` is stored for, if it is stored for one.
    pub fn from_code(c: u32) -> (s: Option<TaskStatus>)
        ensures
            c < 3 ==> s == Some(Self::spec_from_code(c)),
            c >= 3 ==> s is None,
    {
        if c == 0 {
            Some(TaskStatus::Todo)
        } else if c == 1 {
            Some(TaskStatus::Done)
        } else if c == 2 {
            Some(TaskStatus::Cancelled)
        } else {
            None
        }
    }
}

/// Where a submission stands.
#[derive(Copy, Clone, Debug, PartialEq, Eq, Structural)]
pub enum SubmitStatus {
    Pending,
    Withdrawn,
    Approved,
}

impl SubmitStatus {
    /// The number stored for the status.
    pub open spec fn spec_code(self) -> u32 {
        match self {
            SubmitStatus::Pending => 0,
            SubmitStatus::Withdrawn => 1,
            SubmitStatus::Approved => 2,
        }
    }

    /// The status stored as `c`; `Pending` where `c` stands for none.
    pub open spec fn spec_from_code(c: u32) -> SubmitStatus {
        if c == 1 {
            SubmitStatus::Withdrawn
        } else if c == 2 {
            SubmitStatus::Approved
        } else {
            SubmitStatus::Pending
        }
    }

    /// The number stored for the status.
    pub fn code(self) -> (c: u32)
        ensures
            c == self.spec_code(),
            c < 3,
            Self::spec_from_code(c) == self,
    {
        match self {
            SubmitStatus::Pending => 0,
            SubmitStatus::Withdrawn => 1,
            SubmitStatus::Approved => 2,
        }
    }

    /// The status that `c` is stored for, if it is stored for one.
    pub fn from_code(c: u32) -> (s: Option<SubmitStatus>)
        ensures
            c < 3 ==> s == Some(Self::spec_from_code(c)),
            c >= 3 ==> s is None,
    {
        if c == 0 {
            Some(SubmitStatus::Pending)
        } else if c == 1 {
            Some(SubmitStatus::Withdrawn)
        } else if c == 2 {
            Some(SubmitStatus::Approved)
        } else {
            None
        }
    }
}

/// A published work. Actors are named by the text of their address.
#[derive(Clone, Debug, PartialEq, Eq)]
pub struct Story {
    pub story_id: u64,
    pub author: String,
    pub cid: String,
    pub next_task_id: u64,
}

/// What a [`Story`] is, as a mathematical value.
pub struct StoryView {
    pub story_id: u64,
    pub author: Seq<char>,
    pub cid: Seq<char>,
    pub next_task_id: u64,
}

impl View for Story {
    type V = StoryView;

    open spec fn view(&self) -> StoryView {
        StoryView {
            story_id: self.story_id,
            author: self.author@,
            cid: self.cid@,
            next_task_id: self.next_task_id,
        }
    }
}

/// A unit of requested work under a story.
#[derive(Clone, Debug, PartialEq, Eq)]
pub struct Task {
    pub id: u64,
    pub cid: String,
    pub creator: String,
    pub nft_address: String,
    pub reward_nfts: i128,
    pub status: TaskStatus,
    pub next_submit_id: u64,
}

/// What a [`Task`] is, as a mathematical value.
pub struct TaskView {
    pub id: u64,
    pub cid: Seq<char>,
    pub creator: Seq<char>,
    pub nft_address: Seq<char>,
    pub reward_nfts: i128,
    pub status: TaskStatus,
    pub next_submit_id: u64,
}

impl View for Task {
    type V = TaskView;

    open spec fn view(&self) -> TaskView {
        TaskView {
            id: self.id,
            cid: self.cid@,
            creator: self.creator@,
            nft_address: self.nft_address@,
            reward_nfts: self.reward_nfts,
            status: self.status,
            next_submit_id: self.next_submit_id,
        }
    }
}

/// A contributor's attempt at a task.
#[derive(Clone, Debug, PartialEq, Eq)]
pub struct Submit {
    pub id: u64,
    pub cid: String,
    pub creator: String,
    pub status: SubmitStatus,
}

/// What a [`Submit`] is, as a mathematical value.
pub struct SubmitView {
    pub id: u64,
    pub cid: Seq<char>,
    pub creator: Seq<char>,
    pub status: SubmitStatus,
}

impl View for Submit {
    type V = SubmitView;

    open spec fn view(&self) -> SubmitView {
        SubmitView { id: self.id, cid: self.cid@, creator: self.creator@, status: self.status }
    }
}

} // verus!
