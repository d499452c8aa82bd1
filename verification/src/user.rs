//! The user record that the remote user service answers with.

use vstd::prelude::*;
use vstd::string::StringExecFns;
use crate::base::{AuditMetadata, Auditable};

verus! {

#[derive(Debug, Clone, Copy, PartialEq, Eq, Structural)]
pub enum UserStatus {
    Active,
    Inactive,
}

#[derive(Debug, Clone)]
pub struct User {
    pub id: Option<i32>,
    pub email: String,
    pub name: String,
    pub audit: AuditMetadata,
}

impl User {
    pub fn new(email: &str, name: &str) -> (user: Self)
        ensures
            user.id is None,
            user.email@ == email@,
            user.name@ == name@,
            user.audit.updated_date is None,
    {
        Self {
            id: None,
            email: String::from_str(email),
            name: String::from_str(name),
            audit: AuditMetadata::new(),
        }
    }
}

impl Auditable for User {
    fn audit(&self) -> (audit: &AuditMetadata)
        ensures
            *audit == self.audit,
    {
        &self.audit
    }

    fn audit_mut(&mut self) -> (audit: &mut AuditMetadata)
        ensures
            *audit == old(self).audit,
            *final(self) == (User { audit: *final(audit), ..*old(self) }),
    {
        &mut self.audit
    }
}

} // verus!
