use vstd::prelude::*;

use crate::model::{Bicycle, RepositoryError};
use crate::repository::Repository;

verus! {

/// The application façade: each request is one repository call.
pub struct BicycleApi<R: Repository> {
    repo: R,
}

impl<R: Repository> BicycleApi<R> {
    /// A façade over `repo`.
    pub fn new(repo: R) -> (r: BicycleApi<R>)
        ensures
            r.repository() == repo,
    {
        BicycleApi { repo }
    }

    /// The repository behind the façade.
    pub closed spec fn repository(&self) -> R {
        self.repo
    }

    /// Stores a new bicycle: one insert on the repository, its answer returned unchanged.
    pub fn create_bike(&mut self, bike: Bicycle) -> (r: Result<Bicycle, RepositoryError>)
        ensures
            old(self).repository().inserts(bike, final(self).repository(), r),
            r matches Ok(b) ==> b.id >= 1 && b.model == bike.model && b.color == bike.color,
    {
        self.repo.insert(&bike)
    }

    /// Overwrites the stored bicycle `bike.id`: one update on the repository,
    /// its answer returned unchanged.
    pub fn update_bike(&mut self, bike: Bicycle) -> (r: Result<Bicycle, RepositoryError>)
        ensures
            old(self).repository().updates(bike, final(self).repository(), r),
            r matches Ok(b) ==> b.id == bike.id && b.model == bike.model && b.color == bike.color,
    {
        self.repo.update(&bike)
    }

    /// Fetches the bicycle stored under `id`: one read on the repository, its
    /// answer returned unchanged.
    pub fn get_bike(&self, id: i64) -> (r: Result<Bicycle, RepositoryError>)
        ensures
            self.repository().gets(id, r),
            r matches Ok(b) ==> b.id == id,
    {
        self.repo.get(id)
    }
}

} // verus!
