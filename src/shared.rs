use vstd::prelude::*;
use crate::registry::{app_info, app_info_map, Registry};
use crate::string_map::StringMap;
use std::sync::{Mutex, MutexGuard};

verus! {

#[verifier::external_type_specification]
#[verifier::external_body]
#[verifier::reject_recursive_types(T)]
pub struct ExMutex<T: ?Sized>(Mutex<T>);

#[verifier::external_type_specification]
#[verifier::external_body]
#[verifier::reject_recursive_types(T)]
pub struct ExMutexGuard<'a, T: ?Sized + 'a>(MutexGuard<'a, T>);

/// The one failure of a command: the lock over the registry could not be
/// taken, because an earlier holder panicked while holding it.
#[derive(Debug)]
pub enum RegistryError {
    LockUnavailable(String),
}

/// Relies on std::sync::Mutex::new: the new lock is free and holds `registry`.
#[verifier::external_body]
fn new_lock(registry: Registry) -> (r: Mutex<Registry>) {
    Mutex::new(registry)
}

/// Relies on std::sync::Mutex::lock: blocks until the lock is free, and fails
/// with the poison error's message where an earlier holder panicked.
/// What the guarded registry holds depends on the other holders.
#[verifier::external_body]
fn acquire(lock: &Mutex<Registry>) -> (r: Result<MutexGuard<'_, Registry>, String>) {
    lock.lock().map_err(|e| e.to_string())
}

/// Relies on Deref for std::sync::MutexGuard: the registry under the lock.
#[verifier::external_body]
fn guarded<'a>(guard: &'a MutexGuard<'_, Registry>) -> (r: &'a Registry) {
    &**guard
}

/// Relies on DerefMut for std::sync::MutexGuard: the registry under the lock,
/// to be changed in place while the guard is held.
#[verifier::external_body]
fn guarded_mut<'a>(guard: &'a mut MutexGuard<'_, Registry>) -> (r: &'a mut Registry) {
    &mut **guard
}

/// A registry shared between callers: one lock over both tables, so that each
/// command reads or writes them as one step.
pub struct SharedRegistry {
    lock: Mutex<Registry>,
}

impl SharedRegistry {
    /// A shared registry with both tables empty.
    pub fn new() -> (r: SharedRegistry) {
        SharedRegistry { lock: new_lock(Registry::new()) }
    }

    /// Shares `registry` as it stands.
    pub fn from_registry(registry: Registry) -> (r: SharedRegistry) {
        SharedRegistry { lock: new_lock(registry) }
    }
}

/// The application description; it needs no lock and never fails.
pub fn get_app_info() -> (r: Result<StringMap, RegistryError>)
    ensures
        r matches Ok(info) && info@ == app_info_map(),
{
    Ok(app_info())
}

/// What `get_agent_status` returns once the lock's outcome is known: a copy
/// of the agent table of the locked registry, or the lock's failure with its
/// message.
pub fn agent_statuses_locked(locked: Result<&Registry, String>) -> (r: Result<StringMap, RegistryError>)
    ensures
        match locked {
            Ok(reg) => r matches Ok(m) && m@ == reg@.agents && m@.dom().finite(),
            Err(msg) => r matches Err(RegistryError::LockUnavailable(m)) && m == msg,
        },
{
    match locked {
        Ok(reg) => Ok(reg.agent_statuses()),
        Err(msg) => Err(RegistryError::LockUnavailable(msg)),
    }
}

/// What `update_agent_status` does once the lock's outcome is known: sets the
/// status in the locked registry, or returns the lock's failure with its message.
pub fn set_agent_status_locked(
    locked: Result<&mut Registry, String>,
    agent_id: String,
    status: String,
) -> (r: Result<(), RegistryError>)
    ensures
        match locked {
            Ok(reg) => r is Ok && final(reg)@ == reg@.with_agent_status(agent_id@, status@),
            Err(msg) => r matches Err(RegistryError::LockUnavailable(m)) && m == msg,
        },
{
    match locked {
        Ok(reg) => {
            reg.set_agent_status(agent_id, status);
            Ok(())
        },
        Err(msg) => Err(RegistryError::LockUnavailable(msg)),
    }
}

/// What `get_task_list` returns once the lock's outcome is known: a copy of
/// the task table of the locked registry, or the lock's failure with its message.
pub fn tasks_locked(locked: Result<&Registry, String>) -> (r: Result<StringMap, RegistryError>)
    ensures
        match locked {
            Ok(reg) => r matches Ok(m) && m@ == reg@.tasks && m@.dom().finite(),
            Err(msg) => r matches Err(RegistryError::LockUnavailable(m)) && m == msg,
        },
{
    match locked {
        Ok(reg) => Ok(reg.tasks()),
        Err(msg) => Err(RegistryError::LockUnavailable(msg)),
    }
}

/// What `add_task` does once the lock's outcome is known: records the task in
/// the locked registry, or returns the lock's failure with its message.
pub fn add_task_locked(
    locked: Result<&mut Registry, String>,
    task_id: String,
    task_data: String,
) -> (r: Result<(), RegistryError>)
    ensures
        match locked {
            Ok(reg) => r is Ok && final(reg)@ == reg@.with_task(task_id@, task_data@),
            Err(msg) => r matches Err(RegistryError::LockUnavailable(m)) && m == msg,
        },
{
    match locked {
        Ok(reg) => {
            reg.add_task(task_id, task_data);
            Ok(())
        },
        Err(msg) => Err(RegistryError::LockUnavailable(msg)),
    }
}

/// What `remove_task` does once the lock's outcome is known: drops the task
/// from the locked registry, present or not, or returns the lock's failure
/// with its message.
pub fn remove_task_locked(locked: Result<&mut Registry, String>, task_id: &String) -> (r: Result<
    (),
    RegistryError,
>)
    ensures
        match locked {
            Ok(reg) => r is Ok && final(reg)@ == reg@.without_task(task_id@),
            Err(msg) => r matches Err(RegistryError::LockUnavailable(m)) && m == msg,
        },
{
    match locked {
        Ok(reg) => {
            reg.remove_task(task_id);
            Ok(())
        },
        Err(msg) => Err(RegistryError::LockUnavailable(msg)),
    }
}

/// A copy of the agent table taken under the lock, or the lock's failure, as
/// `agent_statuses_locked` states. Which registry the lock hands over depends
/// on every caller that held it before.
pub fn get_agent_status(state: &SharedRegistry) -> (r: Result<StringMap, RegistryError>)
    ensures
        r matches Ok(m) ==> m@.dom().finite(),
{
    match acquire(&state.lock) {
        Ok(guard) => agent_statuses_locked(Ok(guarded(&guard))),
        Err(msg) => agent_statuses_locked(Err(msg)),
    }
}

/// Sets the status of `agent_id` under the lock, or returns the lock's
/// failure and changes nothing, as `set_agent_status_locked` states.
pub fn update_agent_status(agent_id: String, status: String, state: &SharedRegistry) -> (r: Result<
    (),
    RegistryError,
>) {
    match acquire(&state.lock) {
        Ok(mut guard) => set_agent_status_locked(Ok(guarded_mut(&mut guard)), agent_id, status),
        Err(msg) => set_agent_status_locked(Err(msg), agent_id, status),
    }
}

/// A copy of the task table taken under the lock, or the lock's failure, as
/// `tasks_locked` states. Which registry the lock hands over depends on every
/// caller that held it before.
pub fn get_task_list(state: &SharedRegistry) -> (r: Result<StringMap, RegistryError>)
    ensures
        r matches Ok(m) ==> m@.dom().finite(),
{
    match acquire(&state.lock) {
        Ok(guard) => tasks_locked(Ok(guarded(&guard))),
        Err(msg) => tasks_locked(Err(msg)),
    }
}

/// Records task `task_id` under the lock, or returns the lock's failure and
/// changes nothing, as `add_task_locked` states.
pub fn add_task(task_id: String, task_data: String, state: &SharedRegistry) -> (r: Result<
    (),
    RegistryError,
>) {
    match acquire(&state.lock) {
        Ok(mut guard) => add_task_locked(Ok(guarded_mut(&mut guard)), task_id, task_data),
        Err(msg) => add_task_locked(Err(msg), task_id, task_data),
    }
}

/// Drops task `task_id` under the lock, or returns the lock's failure and
/// changes nothing, as `remove_task_locked` states; a task that is not there
/// is no error.
pub fn remove_task(task_id: String, state: &SharedRegistry) -> (r: Result<(), RegistryError>) {
    match acquire(&state.lock) {
        Ok(mut guard) => remove_task_locked(Ok(guarded_mut(&mut guard)), &task_id),
        Err(msg) => remove_task_locked(Err(msg), &task_id),
    }
}

} // verus!
