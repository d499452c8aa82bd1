//! The response envelope and the audit metadata that every entity carries.

use vstd::prelude::*;
use crate::clock::now_millis;

verus! {

/// The envelope in which every answer leaves the service.
#[derive(Debug, Clone)]
pub struct BaseResponse<T> {
    pub trace_id: String,
    pub message: String,
    pub data: Option<T>,
}

impl<T> BaseResponse<T> {
    pub fn new(trace_id: String, message: String, data: Option<T>) -> (response: Self)
        ensures
            response.trace_id == trace_id,
            response.message == message,
            response.data == data,
    {
        Self { trace_id, message, data }
    }
}

/// When an entity was created and when it was last changed, in milliseconds
/// since the Unix epoch.
#[derive(Debug, Clone, Copy, PartialEq, Eq, Structural)]
pub struct AuditMetadata {
    pub created_date: i64,
    pub updated_date: Option<i64>,
}

impl AuditMetadata {
    /// Metadata of an entity created at `now` and not changed since.
    pub fn created_at(now: i64) -> (audit: Self)
        ensures
            audit == (AuditMetadata { created_date: now, updated_date: None }),
    {
        Self { created_date: now, updated_date: None }
    }

    /// Records a change made at `now`; the creation instant stays.
    pub fn touch_at(&mut self, now: i64)
        ensures
            *final(self) == (AuditMetadata {
                created_date: old(self).created_date,
                updated_date: Some(now),
            }),
    {
        self.updated_date = Some(now);
    }

    /// Metadata of an entity created at this moment. The instant is whatever
    /// the clock reads, so only the absence of an update is promised.
    pub fn new() -> (audit: Self)
        ensures
            audit.updated_date is None,
    {
        let now: i64 = now_millis();
        Self::created_at(now)
    }

    /// Records a change made at this moment.
    pub fn touch(&mut self)
        ensures
            final(self).created_date == old(self).created_date,
            final(self).updated_date is Some,
    {
        let now: i64 = now_millis();
        self.touch_at(now);
    }
}

/// An entity that carries audit metadata.
pub trait Auditable {
    fn audit(&self) -> &AuditMetadata;

    fn audit_mut(&mut self) -> &mut AuditMetadata;
}

} // verus!
