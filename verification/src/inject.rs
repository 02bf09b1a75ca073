//! Composition root: the one place where capabilities get their
//! implementations.

use vstd::prelude::*;
use crate::application::DependOnCreateDataService;
use crate::driver::{DataRepository, Pool};
use crate::kernel::DependOnRepository;

verus! {

/// Holds the repository and, through it, offers the create-data use case.
pub struct Handler {
    repo: DataRepository,
}

impl Handler {
    /// The repository that this handler holds.
    pub closed spec fn repo(self) -> DataRepository {
        self.repo
    }

    /// A handler over the stand-in repository.
    pub fn init() -> (handler: Self)
        ensures
            handler.repo() == DataRepository(Pool),
    {
        Self { repo: DataRepository(Pool) }
    }
}

impl DependOnRepository for Handler {
    type Repository = DataRepository;

    fn repository(&self) -> (repository: &Self::Repository)
        ensures
            *repository == self.repo(),
    {
        &self.repo
    }
}

impl DependOnCreateDataService for Handler {
    type CreateDataService = Self;

    fn create_simple_data_service(&self) -> (service: &Self::CreateDataService)
        ensures
            service == self,
    {
        self
    }
}

} // verus!
