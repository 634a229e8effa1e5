use esaf::registry::{app_info, Registry};
use esaf::shared::{
    add_task, add_task_locked, agent_statuses_locked, get_agent_status, get_app_info,
    get_task_list, remove_task, remove_task_locked, set_agent_status_locked, tasks_locked,
    update_agent_status, RegistryError, SharedRegistry,
};
use esaf::string_map::StringMap;

fn s(x: &str) -> String {
    x.to_string()
}

fn pairs(m: &StringMap) -> Vec<(String, String)> {
    let mut v = m.to_vec();
    v.sort();
    v
}

#[test]
fn app_info_is_fixed() {
    let info = app_info();
    assert_eq!(
        pairs(&info),
        vec![
            (s("description"), s("Evolved Synergistic Agentic Framework")),
            (s("name"), s("ESAF Framework")),
            (s("version"), s("0.1.0")),
        ]
    );
}

#[test]
fn get_app_info_ignores_registry_state() {
    let state = SharedRegistry::new();
    update_agent_status(s("a"), s("busy"), &state).unwrap();
    add_task(s("t"), s("p"), &state).unwrap();
    let info = get_app_info().ok().unwrap();
    assert_eq!(info.get(&s("name")), Some(&s("ESAF Framework")));
    assert_eq!(info.get(&s("version")), Some(&s("0.1.0")));
    assert_eq!(info.get(&s("description")), Some(&s("Evolved Synergistic Agentic Framework")));
    assert_eq!(info.to_vec().len(), 3);
}

#[test]
fn task_add_then_remove_scenario() {
    let state = SharedRegistry::new();
    assert!(get_task_list(&state).ok().unwrap().is_empty());
    add_task(s("t1"), s("payload"), &state).ok().unwrap();
    let tasks = get_task_list(&state).ok().unwrap();
    assert_eq!(pairs(&tasks), vec![(s("t1"), s("payload"))]);
    remove_task(s("t1"), &state).ok().unwrap();
    let tasks = get_task_list(&state).ok().unwrap();
    assert!(tasks.is_empty());
    assert_eq!(tasks.to_vec().len(), 0);
}

#[test]
fn remove_task_twice_succeeds() {
    let state = SharedRegistry::new();
    add_task(s("t1"), s("payload"), &state).ok().unwrap();
    assert!(remove_task(s("t1"), &state).is_ok());
    assert!(remove_task(s("t1"), &state).is_ok());
    assert!(get_task_list(&state).ok().unwrap().is_empty());
}

#[test]
fn remove_absent_task_is_no_error() {
    let state = SharedRegistry::new();
    add_task(s("keep"), s("x"), &state).ok().unwrap();
    assert!(remove_task(s("missing"), &state).is_ok());
    let tasks = get_task_list(&state).ok().unwrap();
    assert_eq!(pairs(&tasks), vec![(s("keep"), s("x"))]);
}

#[test]
fn last_status_write_wins() {
    let state = SharedRegistry::new();
    let writes = [("a", "idle"), ("b", "busy"), ("a", "busy"), ("c", "done"), ("b", "idle"), ("a", "done")];
    for (id, st) in writes.iter() {
        update_agent_status(s(id), s(st), &state).ok().unwrap();
    }
    let agents = get_agent_status(&state).ok().unwrap();
    assert_eq!(
        pairs(&agents),
        vec![(s("a"), s("done")), (s("b"), s("idle")), (s("c"), s("done"))]
    );
}

#[test]
fn two_writes_to_one_agent_keep_one_value() {
    let state = SharedRegistry::new();
    update_agent_status(s("a"), s("x"), &state).ok().unwrap();
    update_agent_status(s("a"), s("y"), &state).ok().unwrap();
    let agents = get_agent_status(&state).ok().unwrap();
    assert_eq!(pairs(&agents), vec![(s("a"), s("y"))]);

    let state = SharedRegistry::new();
    update_agent_status(s("a"), s("y"), &state).ok().unwrap();
    update_agent_status(s("a"), s("x"), &state).ok().unwrap();
    let agents = get_agent_status(&state).ok().unwrap();
    assert_eq!(pairs(&agents), vec![(s("a"), s("x"))]);
}

#[test]
fn tables_are_independent() {
    let state = SharedRegistry::new();
    update_agent_status(s("k"), s("agent"), &state).ok().unwrap();
    add_task(s("k"), s("task"), &state).ok().unwrap();
    remove_task(s("k"), &state).ok().unwrap();
    let agents = get_agent_status(&state).ok().unwrap();
    assert_eq!(pairs(&agents), vec![(s("k"), s("agent"))]);
    assert!(get_task_list(&state).ok().unwrap().is_empty());
}

#[test]
fn add_task_overwrites_payload() {
    let mut r = Registry::new();
    r.add_task(s("t"), s("old"));
    r.add_task(s("t"), s("new"));
    assert_eq!(pairs(&r.tasks()), vec![(s("t"), s("new"))]);
}

#[test]
fn empty_strings_are_accepted() {
    let mut r = Registry::new();
    r.set_agent_status(s(""), s(""));
    r.add_task(s(""), s(""));
    assert_eq!(pairs(&r.agent_statuses()), vec![(s(""), s(""))]);
    assert_eq!(pairs(&r.tasks()), vec![(s(""), s(""))]);
    r.remove_task(&s(""));
    assert!(r.tasks().is_empty());
}

#[test]
fn snapshot_is_independent_of_registry() {
    let mut r = Registry::new();
    r.add_task(s("t1"), s("a"));
    let before = r.tasks();
    r.add_task(s("t2"), s("b"));
    r.remove_task(&s("t1"));
    assert_eq!(pairs(&before), vec![(s("t1"), s("a"))]);
    assert_eq!(pairs(&r.tasks()), vec![(s("t2"), s("b"))]);
}

#[test]
fn shared_registry_starts_from_given_registry() {
    let mut r = Registry::new();
    r.set_agent_status(s("a"), s("ready"));
    let state = SharedRegistry::from_registry(r);
    let agents = get_agent_status(&state).ok().unwrap();
    assert_eq!(agents.get(&s("a")), Some(&s("ready")));
    assert!(get_task_list(&state).ok().unwrap().is_empty());
}

#[test]
fn string_map_keeps_first_insertion_order() {
    let mut m = StringMap::new();
    m.insert(s("b"), s("1"));
    m.insert(s("a"), s("2"));
    m.insert(s("b"), s("3"));
    assert_eq!(m.to_vec(), vec![(s("b"), s("3")), (s("a"), s("2"))]);
    m.remove(&s("b"));
    assert_eq!(m.to_vec(), vec![(s("a"), s("2"))]);
    assert_eq!(m.get(&s("b")), None);
    assert!(!m.is_empty());
}

#[test]
fn lock_failure_is_reported_with_its_message() {
    let r = set_agent_status_locked(Err(s("poisoned lock")), s("a"), s("x"));
    match r {
        Err(RegistryError::LockUnavailable(msg)) => assert_eq!(msg, "poisoned lock"),
        Ok(()) => panic!("expected a lock failure"),
    }
    match tasks_locked(Err(s("gone"))) {
        Err(RegistryError::LockUnavailable(msg)) => assert_eq!(msg, "gone"),
        Ok(_) => panic!("expected a lock failure"),
    }
    assert!(agent_statuses_locked(Err(s("e"))).is_err());
    assert!(add_task_locked(Err(s("e")), s("t"), s("p")).is_err());
    assert!(remove_task_locked(Err(s("e")), &s("t")).is_err());
}

#[test]
fn locked_commands_act_on_the_given_registry() {
    let mut r = Registry::new();
    assert!(set_agent_status_locked(Ok(&mut r), s("a"), s("busy")).is_ok());
    assert!(add_task_locked(Ok(&mut r), s("t1"), s("p1")).is_ok());
    assert!(add_task_locked(Ok(&mut r), s("t2"), s("p2")).is_ok());
    assert!(remove_task_locked(Ok(&mut r), &s("t1")).is_ok());
    let agents = agent_statuses_locked(Ok(&r)).ok().unwrap();
    assert_eq!(pairs(&agents), vec![(s("a"), s("busy"))]);
    let tasks = tasks_locked(Ok(&r)).ok().unwrap();
    assert_eq!(pairs(&tasks), vec![(s("t2"), s("p2"))]);
}
