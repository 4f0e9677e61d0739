//! Projects: repository metadata a shared task is tied to.

use vstd::prelude::*;

verus! {

/// GitHub repository metadata carried in task payloads.
pub struct ProjectMetadata {
    pub github_repository_id: i64,
    pub owner: String,
    pub name: String,
}

impl ProjectMetadata {
    /// Field-for-field copy.
    pub fn dup(&self) -> (r: Self)
        ensures
            r == *self,
    {
        ProjectMetadata {
            github_repository_id: self.github_repository_id,
            owner: self.owner.clone(),
            name: self.name.clone(),
        }
    }
}

/// A project row: the organization-scoped record of one repository.
pub struct Project {
    pub id: u128,
    pub organization_id: String,
    pub metadata: ProjectMetadata,
}

/// Data needed to insert a project row.
pub struct CreateProjectData {
    pub organization_id: String,
    pub metadata: ProjectMetadata,
}

impl Project {
    /// The metadata carried into activity payloads.
    pub fn metadata(&self) -> (r: ProjectMetadata)
        ensures
            r == self.metadata,
    {
        self.metadata.dup()
    }

    /// Field-for-field copy.
    pub fn dup(&self) -> (r: Self)
        ensures
            r == *self,
    {
        Project {
            id: self.id,
            organization_id: self.organization_id.clone(),
            metadata: self.metadata.dup(),
        }
    }
}

} // verus!
