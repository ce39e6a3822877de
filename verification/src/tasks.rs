use vstd::prelude::*;
use crate::error::AuthError;
use crate::models::UpdateTask;

verus! {

/// The status of the reply to a task that was created: 201 Created.
pub const TASK_CREATED_STATUS: u16 = 201;

/// The status of the reply to a task that was deleted: 204 No Content.
pub const TASK_DELETED_STATUS: u16 = 204;

/// The outcome of an update, from the number of rows that it changed: an
/// update that changed no row (no such task, or a task of another user) is
/// refused with `Unauthorized`.
pub fn update_outcome(rows_affected: u64) -> (r: Result<(), AuthError>)
    ensures
        rows_affected == 0 ==> r == Err::<(), AuthError>(AuthError::Unauthorized),
        rows_affected > 0 ==> r == Ok::<(), AuthError>(()),
{
    if rows_affected == 0 {
        Err(AuthError::Unauthorized)
    } else {
        Ok(())
    }
}

/// The outcome of a delete, from the number of rows that it removed: the
/// status 204 where it removed a row, `Unauthorized` where it removed none.
pub fn delete_outcome(rows_affected: u64) -> (r: Result<u16, AuthError>)
    ensures
        rows_affected > 0 ==> r == Ok::<u16, AuthError>(TASK_DELETED_STATUS),
        rows_affected == 0 ==> r == Err::<u16, AuthError>(AuthError::Unauthorized),
{
    if rows_affected > 0 {
        Ok(TASK_DELETED_STATUS)
    } else {
        Err(AuthError::Unauthorized)
    }
}

/// The description that an update stores: a new description where the update
/// gives one; `None`, which keeps the stored description, where it gives none
/// or gives an explicit empty value.
pub open spec fn description_change(description: Option<Option<String>>) -> Option<String> {
    match description {
        Some(Some(d)) => Some(d),
        _ => None,
    }
}

impl UpdateTask {
    /// The description to bind to the update, `None` keeping the stored one.
    pub fn description_param(&self) -> (r: Option<String>)
        ensures
            r == description_change(self.description),
    {
        match &self.description {
            Some(Some(d)) => Some(d.clone()),
            _ => None,
        }
    }
}

} // verus!
