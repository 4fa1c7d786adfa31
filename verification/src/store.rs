//! The root record: one counter and three tables held in maps of the Soroban
//! host, read and written row by row.
use vstd::prelude::*;
use crate::types::{Story, StoryView, Submit, SubmitStatus, SubmitView, Task, TaskStatus, TaskView};

verus! {

/// `soroban_sdk::Env`, the handle to the host: carried through, never read.
#[verifier::external_type_specification]
#[verifier::external_body]
pub struct ExEnv(soroban_sdk::Env);

/// `soroban_sdk::String`, a string held by the host: it stands in the tables'
/// types and is turned into text wherever a row leaves a table.
#[verifier::external_type_specification]
#[verifier::external_body]
pub struct ExHostString(soroban_sdk::String);

/// `soroban_sdk::Map`, the host's ordered map with at most one entry per key.
/// What a table holds is named by `story_rows`, `task_rows` and `submit_rows`.
#[verifier::external_type_specification]
#[verifier::external_body]
#[verifier::reject_recursive_types(K)]
#[verifier::reject_recursive_types(V)]
pub struct ExHostMap<K, V>(soroban_sdk::Map<K, V>);

/// `Clone` for `soroban_sdk::Map`: the copy names the same host object in the
/// same environment, so it is the same map.
pub assume_specification<K: Clone, V: Clone>[ <soroban_sdk::Map<K, V> as Clone>::clone ](
    m: &soroban_sdk::Map<K, V>,
) -> (copy: soroban_sdk::Map<K, V>)
    ensures
        copy == *m,
;

/// The table of stories, by story id: id, author, content reference, next task id.
pub type StoryTable = soroban_sdk::Map<u64, (u64, soroban_sdk::String, soroban_sdk::String, u64)>;

/// The table of tasks, by task key: id, content reference, creator, reward
/// asset, reward amount, status code, next submission id.
pub type TaskTable = soroban_sdk::Map<
    soroban_sdk::String,
    (u64, soroban_sdk::String, soroban_sdk::String, soroban_sdk::String, i128, u32, u64),
>;

/// The table of submissions, by submission key: id, content reference, creator,
/// status code.
pub type SubmitTable = soroban_sdk::Map<
    soroban_sdk::String,
    (u64, soroban_sdk::String, soroban_sdk::String, u32),
>;

/// A row of the story table as plain values.
pub type StoryRow = (u64, Seq<char>, Seq<char>, u64);

/// A row of the task table as plain values.
pub type TaskRow = (u64, Seq<char>, Seq<char>, Seq<char>, i128, u32, u64);

/// A row of the submission table as plain values.
pub type SubmitRow = (u64, Seq<char>, Seq<char>, u32);

/// The rows that a story table holds, each host string read as its text.
pub uninterp spec fn story_rows(m: StoryTable) -> Map<u64, StoryRow>;

/// The rows that a task table holds, keys and host strings read as their text.
pub uninterp spec fn task_rows(m: TaskTable) -> Map<Seq<char>, TaskRow>;

/// The rows that a submission table holds, keys and host strings read as their text.
pub uninterp spec fn submit_rows(m: SubmitTable) -> Map<Seq<char>, SubmitRow>;

/// `soroban_sdk::Map::new`: the host's empty map, so a table without rows.
#[verifier::external_body]
fn story_table_new(env: &soroban_sdk::Env) -> (table: StoryTable)
    ensures
        story_rows(table).dom() == Set::<u64>::empty(),
{
    soroban_sdk::Map::new(env)
}

/// `soroban_sdk::Map::new`: the host's empty map, so a table without rows.
#[verifier::external_body]
fn task_table_new(env: &soroban_sdk::Env) -> (table: TaskTable)
    ensures
        task_rows(table).dom() == Set::<Seq<char>>::empty(),
{
    soroban_sdk::Map::new(env)
}

/// `soroban_sdk::Map::new`: the host's empty map, so a table without rows.
#[verifier::external_body]
fn submit_table_new(env: &soroban_sdk::Env) -> (table: SubmitTable)
    ensures
        submit_rows(table).dom() == Set::<Seq<char>>::empty(),
{
    soroban_sdk::Map::new(env)
}

/// `soroban_sdk::Map::get`: the row stored under `id`, or `None` where the map
/// has no such key. Host strings come back as text through their `Display`.
/// The host stops the whole invocation when its budget is spent; the tables
/// here are filled through this module alone, so every row has the table's type.
#[verifier::external_body]
fn story_table_get(m: &StoryTable, id: u64) -> (r: Option<(u64, String, String, u64)>)
    ensures
        r is Some <==> story_rows(*m).contains_key(id),
        r is Some ==> r.unwrap()@ == story_rows(*m)[id],
{
    m.get(id).map(|t| (t.0, t.1.to_string(), t.2.to_string(), t.3))
}

/// `soroban_sdk::Map::set`: stores the row under `id`, replacing what was there
/// and leaving every other key as it was. Text goes in through
/// `soroban_sdk::String::from_str`.
#[verifier::external_body]
fn story_table_set(m: &mut StoryTable, id: u64, row: (u64, String, String, u64))
    ensures
        story_rows(*final(m)) == story_rows(*old(m)).insert(id, row@),
{
    let env = m.env().clone();
    let author = soroban_sdk::String::from_str(&env, &row.1);
    let cid = soroban_sdk::String::from_str(&env, &row.2);
    m.set(id, (row.0, author, cid, row.3));
}

/// `soroban_sdk::Map::get`: the row stored under the key with the text `key`,
/// or `None` where the map has no such key. See `story_table_get`.
#[verifier::external_body]
fn task_table_get(m: &TaskTable, key: &String) -> (r: Option<
    (u64, String, String, String, i128, u32, u64),
>)
    ensures
        r is Some <==> task_rows(*m).contains_key(key@),
        r is Some ==> r.unwrap()@ == task_rows(*m)[key@],
{
    let k = soroban_sdk::String::from_str(m.env(), key);
    m.get(k).map(|t| (t.0, t.1.to_string(), t.2.to_string(), t.3.to_string(), t.4, t.5, t.6))
}

/// `soroban_sdk::Map::set`: stores the row under the key with the text `key`,
/// replacing what was there and leaving every other key as it was.
#[verifier::external_body]
fn task_table_set(m: &mut TaskTable, key: &String, row: (u64, String, String, String, i128, u32, u64))
    ensures
        task_rows(*final(m)) == task_rows(*old(m)).insert(key@, row@),
{
    let env = m.env().clone();
    let k = soroban_sdk::String::from_str(&env, key);
    let cid = soroban_sdk::String::from_str(&env, &row.1);
    let creator = soroban_sdk::String::from_str(&env, &row.2);
    let asset = soroban_sdk::String::from_str(&env, &row.3);
    m.set(k, (row.0, cid, creator, asset, row.4, row.5, row.6));
}

/// `soroban_sdk::Map::get`: the row stored under the key with the text `key`,
/// or `None` where the map has no such key. See `story_table_get`.
#[verifier::external_body]
fn submit_table_get(m: &SubmitTable, key: &String) -> (r: Option<(u64, String, String, u32)>)
    ensures
        r is Some <==> submit_rows(*m).contains_key(key@),
        r is Some ==> r.unwrap()@ == submit_rows(*m)[key@],
{
    let k = soroban_sdk::String::from_str(m.env(), key);
    m.get(k).map(|t| (t.0, t.1.to_string(), t.2.to_string(), t.3))
}

/// `soroban_sdk::Map::set`: stores the row under the key with the text `key`,
/// replacing what was there and leaving every other key as it was.
#[verifier::external_body]
fn submit_table_set(m: &mut SubmitTable, key: &String, row: (u64, String, String, u32))
    ensures
        submit_rows(*final(m)) == submit_rows(*old(m)).insert(key@, row@),
{
    let env = m.env().clone();
    let k = soroban_sdk::String::from_str(&env, key);
    let cid = soroban_sdk::String::from_str(&env, &row.1);
    let creator = soroban_sdk::String::from_str(&env, &row.2);
    m.set(k, (row.0, cid, creator, row.3));
}

/// `soroban_sdk::Map::keys`: every key of the map, each once. The host hands
/// them out in its key order, of which nothing is claimed here.
#[verifier::external_body]
fn story_table_keys(m: &StoryTable) -> (keys: Vec<u64>)
    ensures
        forall|i: int, j: int| 0 <= i < j < keys@.len() ==> keys@[i] != keys@[j],
        forall|k: u64| keys@.contains(k) <==> story_rows(*m).contains_key(k),
{
    m.keys().iter().collect()
}

/// `soroban_sdk::Map::keys`: the text of every key of the map, each once. See
/// `story_table_keys`.
#[verifier::external_body]
fn task_table_keys(m: &TaskTable) -> (keys: Vec<String>)
    ensures
        forall|i: int, j: int| 0 <= i < j < keys@.len() ==> keys@[i]@ != keys@[j]@,
        forall|k: Seq<char>|
            (exists|i: int| 0 <= i < keys@.len() && keys@[i]@ == k) <==> task_rows(*m).contains_key(
                k,
            ),
{
    m.keys().iter().map(|k| k.to_string()).collect()
}

/// `soroban_sdk::Map::keys`: the text of every key of the map, each once. See
/// `story_table_keys`.
#[verifier::external_body]
fn submit_table_keys(m: &SubmitTable) -> (keys: Vec<String>)
    ensures
        forall|i: int, j: int| 0 <= i < j < keys@.len() ==> keys@[i]@ != keys@[j]@,
        forall|k: Seq<char>|
            (exists|i: int| 0 <= i < keys@.len() && keys@[i]@ == k) <==> submit_rows(
                *m,
            ).contains_key(k),
{
    m.keys().iter().map(|k| k.to_string()).collect()
}

/// The story that a row stands for.
pub open spec fn story_of_row(r: StoryRow) -> StoryView {
    StoryView { story_id: r.0, author: r.1, cid: r.2, next_task_id: r.3 }
}

/// The task that a row stands for.
pub open spec fn task_of_row(r: TaskRow) -> TaskView {
    TaskView {
        id: r.0,
        cid: r.1,
        creator: r.2,
        nft_address: r.3,
        reward_nfts: r.4,
        status: TaskStatus::spec_from_code(r.5),
        next_submit_id: r.6,
    }
}

/// The submission that a row stands for.
pub open spec fn submit_of_row(r: SubmitRow) -> SubmitView {
    SubmitView { id: r.0, cid: r.1, creator: r.2, status: SubmitStatus::spec_from_code(r.3) }
}

/// The root record as a mathematical value.
pub struct FactoryView {
    pub next_sid: u64,
    pub stories: Map<u64, StoryView>,
    pub story_task: Map<Seq<char>, TaskView>,
    pub task_submit: Map<Seq<char>, SubmitView>,
}

impl FactoryView {
    /// The record before anything was published.
    pub open spec fn initial() -> FactoryView {
        FactoryView {
            next_sid: 1,
            stories: Map::empty(),
            story_task: Map::empty(),
            task_submit: Map::empty(),
        }
    }
}

/// The single root record: the next story id and the three tables.
#[derive(Clone, Debug, PartialEq, Eq)]
pub struct StoryFactory {
    next_sid: u64,
    stories: StoryTable,
    story_task: TaskTable,
    task_submit: SubmitTable,
}

impl View for StoryFactory {
    type V = FactoryView;

    closed spec fn view(&self) -> FactoryView {
        FactoryView {
            next_sid: self.next_sid,
            stories: story_rows(self.stories).map_values(|r: StoryRow| story_of_row(r)),
            story_task: task_rows(self.story_task).map_values(|r: TaskRow| task_of_row(r)),
            task_submit: submit_rows(self.task_submit).map_values(|r: SubmitRow| submit_of_row(r)),
        }
    }
}

impl StoryFactory {
    /// Every stored status code stands for a status.
    pub closed spec fn wf(&self) -> bool {
        &&& forall|k: Seq<char>| #[trigger]
            task_rows(self.story_task).contains_key(k) ==> task_rows(self.story_task)[k].5 < 3
        &&& forall|k: Seq<char>| #[trigger]
            submit_rows(self.task_submit).contains_key(k) ==> submit_rows(self.task_submit)[k].3
                < 3
    }

    /// A fresh record on the host behind `env`: the first story will get id 1.
    pub fn new(env: &soroban_sdk::Env) -> (s: StoryFactory)
        ensures
            s.wf(),
            s@ == FactoryView::initial(),
    {
        let s = StoryFactory {
            next_sid: 1,
            stories: story_table_new(env),
            story_task: task_table_new(env),
            task_submit: submit_table_new(env),
        };
        proof {
            assert(s@.stories =~= Map::empty());
            assert(s@.story_task =~= Map::empty());
            assert(s@.task_submit =~= Map::empty());
        }
        s
    }

    /// The id that the next published story will get.
    pub fn next_sid(&self) -> (n: u64)
        ensures
            n == self@.next_sid,
    {
        self.next_sid
    }

    /// The story with the given id, if there is one.
    pub fn story(&self, story_id: u64) -> (r: Option<Story>)
        ensures
            r is Some <==> self@.stories.contains_key(story_id),
            r is Some ==> r.unwrap()@ == self@.stories[story_id],
    {
        match story_table_get(&self.stories, story_id) {
            Some(row) => Some(Story { story_id: row.0, author: row.1, cid: row.2, next_task_id: row.3 }),
            None => None,
        }
    }

    /// The task stored under `key`, if there is one.
    pub fn task(&self, key: &String) -> (r: Option<Task>)
        requires
            self.wf(),
        ensures
            r is Some <==> self@.story_task.contains_key(key@),
            r is Some ==> r.unwrap()@ == self@.story_task[key@],
    {
        match task_table_get(&self.story_task, key) {
            Some(row) => match TaskStatus::from_code(row.5) {
                Some(status) => Some(
                    Task {
                        id: row.0,
                        cid: row.1,
                        creator: row.2,
                        nft_address: row.3,
                        reward_nfts: row.4,
                        status,
                        next_submit_id: row.6,
                    },
                ),
                None => None,
            },
            None => None,
        }
    }

    /// The submission stored under `key`, if there is one.
    pub fn submit(&self, key: &String) -> (r: Option<Submit>)
        requires
            self.wf(),
        ensures
            r is Some <==> self@.task_submit.contains_key(key@),
            r is Some ==> r.unwrap()@ == self@.task_submit[key@],
    {
        match submit_table_get(&self.task_submit, key) {
            Some(row) => match SubmitStatus::from_code(row.3) {
                Some(status) => Some(Submit { id: row.0, cid: row.1, creator: row.2, status }),
                None => None,
            },
            None => None,
        }
    }

    /// The id of every story, each once.
    pub fn story_ids(&self) -> (ids: Vec<u64>)
        ensures
            forall|i: int, j: int| 0 <= i < j < ids@.len() ==> ids@[i] != ids@[j],
            forall|k: u64| ids@.contains(k) <==> self@.stories.contains_key(k),
    {
        story_table_keys(&self.stories)
    }

    /// The key of every task, each once.
    pub fn task_keys(&self) -> (keys: Vec<String>)
        ensures
            forall|i: int, j: int| 0 <= i < j < keys@.len() ==> keys@[i]@ != keys@[j]@,
            forall|k: Seq<char>|
                (exists|i: int| 0 <= i < keys@.len() && keys@[i]@ == k)
                    <==> self@.story_task.contains_key(k),
    {
        task_table_keys(&self.story_task)
    }

    /// The key of every submission, each once.
    pub fn submit_keys(&self) -> (keys: Vec<String>)
        ensures
            forall|i: int, j: int| 0 <= i < j < keys@.len() ==> keys@[i]@ != keys@[j]@,
            forall|k: Seq<char>|
                (exists|i: int| 0 <= i < keys@.len() && keys@[i]@ == k)
                    <==> self@.task_submit.contains_key(k),
    {
        submit_table_keys(&self.task_submit)
    }

    /// Moves the story counter to `next_sid`.
    pub fn set_next_sid(&mut self, next_sid: u64)
        ensures
            final(self).wf() == old(self).wf(),
            final(self)@ == (FactoryView { next_sid, ..old(self)@ }),
    {
        self.next_sid = next_sid;
    }

    /// Stores `story` under `story_id`.
    pub fn put_story(&mut self, story_id: u64, story: Story)
        ensures
            final(self).wf() == old(self).wf(),
            final(self)@ == (FactoryView {
                stories: old(self)@.stories.insert(story_id, story@),
                ..old(self)@
            }),
    {
        story_table_set(
            &mut self.stories,
            story_id,
            (story.story_id, story.author, story.cid, story.next_task_id),
        );
        proof {
            assert(final(self)@.stories =~= old(self)@.stories.insert(story_id, story@));
        }
    }

    /// Stores `task` under `key`.
    pub fn put_task(&mut self, key: &String, task: Task)
        ensures
            old(self).wf() ==> final(self).wf(),
            final(self)@ == (FactoryView {
                story_task: old(self)@.story_task.insert(key@, task@),
                ..old(self)@
            }),
    {
        let code = task.status.code();
        task_table_set(
            &mut self.story_task,
            key,
            (task.id, task.cid, task.creator, task.nft_address, task.reward_nfts, code, task.next_submit_id),
        );
        proof {
            assert(final(self)@.story_task =~= old(self)@.story_task.insert(key@, task@));
        }
    }

    /// Stores `submit` under `key`.
    pub fn put_submit(&mut self, key: &String, submit: Submit)
        ensures
            old(self).wf() ==> final(self).wf(),
            final(self)@ == (FactoryView {
                task_submit: old(self)@.task_submit.insert(key@, submit@),
                ..old(self)@
            }),
    {
        let code = submit.status.code();
        submit_table_set(&mut self.task_submit, key, (submit.id, submit.cid, submit.creator, code));
        proof {
            assert(final(self)@.task_submit =~= old(self)@.task_submit.insert(key@, submit@));
        }
    }
}

} // verus!
