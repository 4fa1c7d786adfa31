use soroban_sdk::testutils::EnvTestConfig;
use soroban_sdk::Env;
use story_factory::{
    Error, Processing, Story, StoryFactory, StoryFactoryContract, Submit, SubmitStatus, Task,
    TaskStatus,
};

fn host() -> Env {
    Env::new_with_config(EnvTestConfig { capture_snapshot_at_drop: false })
}

fn s(text: &str) -> String {
    text.to_string()
}

/// Alice publishes story 1 and attaches task 1 to it.
fn after_scenario_a(env: &Env) -> StoryFactory {
    let mut state = StoryFactory::new(env);
    assert_eq!(StoryFactoryContract::publish_story(&mut state, s("alice"), s("cidA")), Ok(1));
    assert_eq!(
        StoryFactoryContract::create_task(&mut state, s("alice"), 1, s("cidT"), s("nftAddr"), 100),
        Ok(1)
    );
    state
}

fn after_scenario_b(env: &Env) -> StoryFactory {
    let mut state = after_scenario_a(env);
    assert_eq!(
        StoryFactoryContract::create_task_submit(&mut state, s("bob"), 1, 1, s("cidS")),
        Ok(1)
    );
    state
}

fn after_scenario_c(env: &Env) -> StoryFactory {
    let mut state = after_scenario_b(env);
    assert_eq!(StoryFactoryContract::mark_task_done(&mut state, s("alice"), 1, 1, 1), Ok(1));
    state
}

#[test]
fn scenario_a_publish_and_create_task() {
    let env = host();
    let state = after_scenario_a(&env);
    assert_eq!(state.next_sid(), 2);
    assert_eq!(
        state.story(1),
        Some(Story { story_id: 1, author: s("alice"), cid: s("cidA"), next_task_id: 2 })
    );
    assert_eq!(
        state.task(&s("1,1")),
        Some(Task {
            id: 1,
            cid: s("cidT"),
            creator: s("alice"),
            nft_address: s("nftAddr"),
            reward_nfts: 100,
            status: TaskStatus::Todo,
            next_submit_id: 1,
        })
    );
    assert_eq!(state.task(&s("1,2")), None);
    assert_eq!(state.submit(&s("1,1,1")), None);
}

#[test]
fn scenario_b_submit() {
    let env = host();
    let state = after_scenario_b(&env);
    assert_eq!(
        state.submit(&s("1,1,1")),
        Some(Submit { id: 1, cid: s("cidS"), creator: s("bob"), status: SubmitStatus::Pending })
    );
    let task = state.task(&s("1,1")).unwrap();
    assert_eq!(task.next_submit_id, 2);
    assert_eq!(task.status, TaskStatus::Todo);
}

#[test]
fn scenario_c_approve() {
    let env = host();
    let state = after_scenario_c(&env);
    let task = state.task(&s("1,1")).unwrap();
    assert_eq!(task.status, TaskStatus::Done);
    assert_eq!(task.cid, "cidT");
    assert_eq!(task.next_submit_id, 2);
    let submit = state.submit(&s("1,1,1")).unwrap();
    assert_eq!(submit.status, SubmitStatus::Approved);
    assert_eq!(submit.creator, "bob");
}

#[test]
fn scenario_d_submit_after_done_is_refused() {
    let env = host();
    let mut state = after_scenario_c(&env);
    assert_eq!(
        StoryFactoryContract::create_task_submit(&mut state, s("carol"), 1, 1, s("cidS2")),
        Err(Error::StoryTaskDone)
    );
    assert_eq!(state.submit(&s("1,1,2")), None);
    assert_eq!(state.task(&s("1,1")).unwrap().next_submit_id, 2);
    assert!(state == after_scenario_c(&env));
}

#[test]
fn scenario_e_withdraw_by_stranger_is_refused() {
    let env = host();
    let mut state = after_scenario_c(&env);
    assert_eq!(
        StoryFactoryContract::withdraw_task_submit(&mut state, s("carol"), 1, 1, 1),
        Err(Error::NotAuthor)
    );
    assert_eq!(state.submit(&s("1,1,1")).unwrap().status, SubmitStatus::Approved);
    assert!(state == after_scenario_c(&env));
}

#[test]
fn story_ids_count_up_from_one() {
    let env = host();
    let mut state = StoryFactory::new(&env);
    assert_eq!(state.next_sid(), 1);
    for expected in 1..=5u64 {
        let cid = format!("cid{}", expected);
        assert_eq!(
            StoryFactoryContract::publish_story(&mut state, s("alice"), cid.clone()),
            Ok(expected)
        );
        let story = state.story(expected).unwrap();
        assert_eq!(story.story_id, expected);
        assert_eq!(story.cid, cid);
        assert_eq!(story.next_task_id, 1);
    }
    assert_eq!(state.next_sid(), 6);
    assert_eq!(state.story(6), None);
    assert_eq!(state.story(0), None);
}

#[test]
fn task_ids_count_up_per_story() {
    let env = host();
    let mut state = StoryFactory::new(&env);
    StoryFactoryContract::publish_story(&mut state, s("alice"), s("a")).unwrap();
    StoryFactoryContract::publish_story(&mut state, s("bob"), s("b")).unwrap();
    for expected in 1..=3u64 {
        assert_eq!(
            StoryFactoryContract::create_task(&mut state, s("alice"), 1, s("t"), s("nft"), 7),
            Ok(1)
        );
        assert_eq!(state.task(&format!("1,{}", expected)).unwrap().id, expected);
        assert_eq!(state.story(1).unwrap().next_task_id, expected + 1);
    }
    assert_eq!(
        StoryFactoryContract::create_task(&mut state, s("bob"), 2, s("t"), s("nft"), -7),
        Ok(2)
    );
    let task = state.task(&s("2,1")).unwrap();
    assert_eq!(task.id, 1);
    assert_eq!(task.reward_nfts, -7);
    assert_eq!(task.creator, "bob");
    assert_eq!(state.story(2).unwrap().next_task_id, 2);
    assert_eq!(state.task(&s("1,4")), None);
}

#[test]
fn submit_ids_count_up_per_task() {
    let env = host();
    let mut state = after_scenario_a(&env);
    StoryFactoryContract::create_task(&mut state, s("alice"), 1, s("t2"), s("nft"), 1).unwrap();
    for expected in 1..=3u64 {
        assert_eq!(
            StoryFactoryContract::create_task_submit(&mut state, s("bob"), 1, 1, s("w")),
            Ok(1)
        );
        assert_eq!(state.submit(&format!("1,1,{}", expected)).unwrap().id, expected);
        assert_eq!(state.task(&s("1,1")).unwrap().next_submit_id, expected + 1);
    }
    assert_eq!(
        StoryFactoryContract::create_task_submit(&mut state, s("carol"), 1, 2, s("w")),
        Ok(1)
    );
    assert_eq!(state.submit(&s("1,2,1")).unwrap().id, 1);
    assert_eq!(state.submit(&s("1,2,1")).unwrap().creator, "carol");
    assert_eq!(state.task(&s("1,2")).unwrap().next_submit_id, 2);
}

#[test]
fn update_story_replaces_content_only() {
    let env = host();
    let mut state = after_scenario_a(&env);
    assert_eq!(StoryFactoryContract::update_story(&mut state, s("alice"), 1, s("cidA2")), Ok(1));
    assert_eq!(
        state.story(1),
        Some(Story { story_id: 1, author: s("alice"), cid: s("cidA2"), next_task_id: 2 })
    );
    assert_eq!(state.next_sid(), 2);
}

#[test]
fn update_task_replaces_content_only() {
    let env = host();
    let mut state = after_scenario_c(&env);
    assert_eq!(StoryFactoryContract::update_task(&mut state, s("alice"), 1, 1, s("cidT2")), Ok(1));
    assert_eq!(
        state.task(&s("1,1")),
        Some(Task {
            id: 1,
            cid: s("cidT2"),
            creator: s("alice"),
            nft_address: s("nftAddr"),
            reward_nfts: 100,
            status: TaskStatus::Done,
            next_submit_id: 2,
        })
    );
}

#[test]
fn cancel_task_closes_it_to_submissions() {
    let env = host();
    let mut state = after_scenario_b(&env);
    assert_eq!(StoryFactoryContract::cancel_task(&mut state, s("alice"), 1, 1), Ok(1));
    let task = state.task(&s("1,1")).unwrap();
    assert_eq!(task.status, TaskStatus::Cancelled);
    assert_eq!(task.next_submit_id, 2);
    for _ in 0..3 {
        assert_eq!(
            StoryFactoryContract::create_task_submit(&mut state, s("bob"), 1, 1, s("again")),
            Err(Error::StoryTaskDone)
        );
    }
    assert_eq!(state.submit(&s("1,1,2")), None);
    assert_eq!(state.submit(&s("1,1,1")).unwrap().status, SubmitStatus::Pending);
}

#[test]
fn cancel_and_approve_ignore_current_status() {
    let env = host();
    let mut state = after_scenario_c(&env);
    assert_eq!(StoryFactoryContract::cancel_task(&mut state, s("alice"), 1, 1), Ok(1));
    assert_eq!(state.task(&s("1,1")).unwrap().status, TaskStatus::Cancelled);
    assert_eq!(StoryFactoryContract::withdraw_task_submit(&mut state, s("bob"), 1, 1, 1), Ok(1));
    assert_eq!(state.submit(&s("1,1,1")).unwrap().status, SubmitStatus::Withdrawn);
    assert_eq!(StoryFactoryContract::mark_task_done(&mut state, s("alice"), 1, 1, 1), Ok(1));
    assert_eq!(state.task(&s("1,1")).unwrap().status, TaskStatus::Done);
    assert_eq!(state.submit(&s("1,1,1")).unwrap().status, SubmitStatus::Approved);
}

#[test]
fn withdraw_by_creator() {
    let env = host();
    let mut state = after_scenario_b(&env);
    assert_eq!(StoryFactoryContract::withdraw_task_submit(&mut state, s("bob"), 1, 1, 1), Ok(1));
    assert_eq!(
        state.submit(&s("1,1,1")),
        Some(Submit { id: 1, cid: s("cidS"), creator: s("bob"), status: SubmitStatus::Withdrawn })
    );
    assert_eq!(state.task(&s("1,1")).unwrap().status, TaskStatus::Todo);
}

#[test]
fn strangers_get_not_author_and_change_nothing() {
    let env = host();
    let mut state = after_scenario_b(&env);
    assert_eq!(
        StoryFactoryContract::update_story(&mut state, s("mallory"), 1, s("x")),
        Err(Error::NotAuthor)
    );
    assert_eq!(
        StoryFactoryContract::create_task(&mut state, s("mallory"), 1, s("x"), s("n"), 1),
        Err(Error::NotAuthor)
    );
    assert_eq!(
        StoryFactoryContract::update_task(&mut state, s("mallory"), 1, 1, s("x")),
        Err(Error::NotAuthor)
    );
    assert_eq!(
        StoryFactoryContract::cancel_task(&mut state, s("mallory"), 1, 1),
        Err(Error::NotAuthor)
    );
    assert_eq!(
        StoryFactoryContract::withdraw_task_submit(&mut state, s("alice"), 1, 1, 1),
        Err(Error::NotAuthor)
    );
    assert_eq!(
        StoryFactoryContract::mark_task_done(&mut state, s("bob"), 1, 1, 1),
        Err(Error::NotAuthor)
    );
    assert!(state == after_scenario_b(&env));
    assert_eq!(state.story(1).unwrap().cid, "cidA");
    assert_eq!(state.task(&s("1,1")).unwrap().status, TaskStatus::Todo);
    assert_eq!(state.submit(&s("1,1,1")).unwrap().status, SubmitStatus::Pending);
}

#[test]
fn missing_entities_are_reported() {
    let env = host();
    let mut state = after_scenario_b(&env);
    assert_eq!(
        StoryFactoryContract::update_story(&mut state, s("alice"), 2, s("x")),
        Err(Error::NotFoundStory)
    );
    assert_eq!(
        StoryFactoryContract::create_task(&mut state, s("alice"), 9, s("x"), s("n"), 1),
        Err(Error::NotFoundStory)
    );
    assert_eq!(
        StoryFactoryContract::update_task(&mut state, s("alice"), 1, 2, s("x")),
        Err(Error::NotFoundStoryTask)
    );
    assert_eq!(
        StoryFactoryContract::cancel_task(&mut state, s("alice"), 2, 1),
        Err(Error::NotFoundStoryTask)
    );
    assert_eq!(
        StoryFactoryContract::create_task_submit(&mut state, s("bob"), 1, 2, s("x")),
        Err(Error::NotFoundStoryTask)
    );
    assert_eq!(
        StoryFactoryContract::withdraw_task_submit(&mut state, s("bob"), 1, 1, 2),
        Err(Error::NotFoundTaskSubmit)
    );
    assert_eq!(
        StoryFactoryContract::mark_task_done(&mut state, s("alice"), 1, 2, 1),
        Err(Error::NotFoundStoryTask)
    );
    assert_eq!(
        StoryFactoryContract::mark_task_done(&mut state, s("alice"), 1, 1, 2),
        Err(Error::NotFoundTaskSubmit)
    );
    assert!(state == after_scenario_b(&env));
}

#[test]
fn mark_task_done_checks_the_task_owner_before_the_submission() {
    let env = host();
    let mut state = after_scenario_b(&env);
    assert_eq!(
        StoryFactoryContract::mark_task_done(&mut state, s("bob"), 1, 1, 99),
        Err(Error::NotAuthor)
    );
}

#[test]
fn a_differing_operation_makes_records_differ() {
    let env = host();
    let mut state = after_scenario_b(&env);
    StoryFactoryContract::update_task(&mut state, s("alice"), 1, 1, s("other")).unwrap();
    assert!(state != after_scenario_b(&env));
}

#[test]
fn get_state_keeps_a_stored_record_and_starts_fresh_without_one() {
    let env = host();
    let fresh = StoryFactoryContract::get_state(&env, None);
    assert_eq!(fresh.next_sid(), 1);
    assert_eq!(fresh.story(1), None);
    assert_eq!(fresh.task(&s("1,1")), None);
    assert_eq!(fresh.submit(&s("1,1,1")), None);
    assert!(fresh == StoryFactory::new(&env));

    let state = StoryFactoryContract::get_state(&env, Some(after_scenario_c(&env)));
    assert!(state == after_scenario_c(&env));
    let again = StoryFactoryContract::get_state(&env, Some(state));
    assert!(again == after_scenario_c(&env));
    assert_eq!(again.next_sid(), 2);
}

#[test]
fn keys_are_decimal_and_comma_separated() {
    assert_eq!(Processing::make_task_key(1, 1), "1,1");
    assert_eq!(Processing::make_task_key(0, 10), "0,10");
    assert_eq!(Processing::make_task_key(12, 3), "12,3");
    assert_eq!(Processing::make_task_key(1, 23), "1,23");
    assert_eq!(
        Processing::make_task_key(u64::MAX, 7),
        "18446744073709551615,7"
    );
    assert_eq!(Processing::make_submit_key(1, 1, 1), "1,1,1");
    assert_eq!(Processing::make_submit_key(12, 0, 345), "12,0,345");
    assert_ne!(Processing::make_task_key(12, 3), Processing::make_task_key(1, 23));
    assert_ne!(Processing::make_submit_key(1, 2, 3), Processing::make_task_key(1, 2));
}

#[test]
fn is_owner_compares_actors() {
    assert!(StoryFactoryContract::is_owner(&s("alice"), &s("alice")));
    assert!(!StoryFactoryContract::is_owner(&s("alice"), &s("bob")));
    assert!(!StoryFactoryContract::is_owner(&s("alice"), &s("alice ")));
}

#[test]
fn error_codes() {
    assert_eq!(Error::NotAuthor.code(), 1);
    assert_eq!(Error::NotFoundStory.code(), 2);
    assert_eq!(Error::NotFoundStoryNft.code(), 3);
    assert_eq!(Error::StoryNftSoldOut.code(), 4);
    assert_eq!(Error::NotFoundStoryTask.code(), 5);
    assert_eq!(Error::StoryTaskDone.code(), 6);
    assert_eq!(Error::NotFoundTaskSubmit.code(), 7);
}

#[test]
fn status_codes_round_trip() {
    for status in [TaskStatus::Todo, TaskStatus::Done, TaskStatus::Cancelled] {
        assert_eq!(TaskStatus::from_code(status.code()), Some(status));
    }
    for status in [SubmitStatus::Pending, SubmitStatus::Withdrawn, SubmitStatus::Approved] {
        assert_eq!(SubmitStatus::from_code(status.code()), Some(status));
    }
    assert_eq!(TaskStatus::Todo.code(), 0);
    assert_eq!(TaskStatus::Done.code(), 1);
    assert_eq!(TaskStatus::Cancelled.code(), 2);
    assert_eq!(SubmitStatus::Pending.code(), 0);
    assert_eq!(SubmitStatus::Withdrawn.code(), 1);
    assert_eq!(SubmitStatus::Approved.code(), 2);
    assert_eq!(TaskStatus::from_code(3), None);
    assert_eq!(SubmitStatus::from_code(u32::MAX), None);
}

#[test]
fn text_with_non_ascii_characters_is_kept() {
    let env = host();
    let mut state = StoryFactory::new(&env);
    StoryFactoryContract::publish_story(&mut state, s("ålice"), s("çid – ☃")).unwrap();
    let story = state.story(1).unwrap();
    assert_eq!(story.author, "ålice");
    assert_eq!(story.cid, "çid – ☃");
    assert_eq!(
        StoryFactoryContract::update_story(&mut state, s("alice"), 1, s("x")),
        Err(Error::NotAuthor)
    );
}

#[test]
fn every_entity_is_listed_once() {
    let env = host();
    let fresh = StoryFactory::new(&env);
    assert_eq!(fresh.story_ids(), Vec::<u64>::new());
    assert_eq!(fresh.task_keys(), Vec::<String>::new());
    assert_eq!(fresh.submit_keys(), Vec::<String>::new());

    let mut state = after_scenario_c(&env);
    StoryFactoryContract::publish_story(&mut state, s("bob"), s("cidB")).unwrap();
    StoryFactoryContract::create_task(&mut state, s("alice"), 1, s("t"), s("nft"), 1).unwrap();
    StoryFactoryContract::create_task(&mut state, s("bob"), 2, s("t"), s("nft"), 1).unwrap();
    StoryFactoryContract::create_task_submit(&mut state, s("bob"), 1, 2, s("w")).unwrap();
    StoryFactoryContract::create_task_submit(&mut state, s("bob"), 1, 2, s("w")).unwrap();
    let mut ids = state.story_ids();
    ids.sort();
    assert_eq!(ids, vec![1, 2]);
    let mut tasks = state.task_keys();
    tasks.sort();
    assert_eq!(tasks, vec![s("1,1"), s("1,2"), s("2,1")]);
    let mut submits = state.submit_keys();
    submits.sort();
    assert_eq!(submits, vec![s("1,1,1"), s("1,2,1"), s("1,2,2")]);
}

#[test]
fn stored_entities_can_be_put_back() {
    let env = host();
    let source = after_scenario_c(&env);
    let mut copy = StoryFactory::new(&env);
    copy.set_next_sid(source.next_sid());
    for id in source.story_ids() {
        copy.put_story(id, source.story(id).unwrap());
    }
    for key in source.task_keys() {
        copy.put_task(&key, source.task(&key).unwrap());
    }
    for key in source.submit_keys() {
        copy.put_submit(&key, source.submit(&key).unwrap());
    }
    assert!(copy == source);
    assert_eq!(copy.next_sid(), 2);
    assert_eq!(copy.task(&s("1,1")).unwrap().status, TaskStatus::Done);
    assert_eq!(copy.submit(&s("1,1,1")).unwrap().status, SubmitStatus::Approved);
}

#[test]
fn a_refused_operation_leaves_the_record_as_it_was() {
    let env = host();
    let mut state = after_scenario_b(&env);
    let before = state.clone();
    assert_eq!(
        StoryFactoryContract::update_task(&mut state, s("bob"), 1, 1, s("x")),
        Err(Error::NotAuthor)
    );
    assert!(state == before);
    assert_eq!(
        StoryFactoryContract::mark_task_done(&mut state, s("alice"), 1, 1, 5),
        Err(Error::NotFoundTaskSubmit)
    );
    assert!(state == before);
    assert_eq!(state.task(&s("1,1")).unwrap().status, TaskStatus::Todo);
    assert_eq!(
        StoryFactoryContract::update_task(&mut state, s("alice"), 1, 1, s("x")),
        Ok(1)
    );
    assert!(state != before);
    assert_eq!(before.task(&s("1,1")).unwrap().cid, "cidT");
    assert_eq!(state.task(&s("1,1")).unwrap().cid, "x");
}
