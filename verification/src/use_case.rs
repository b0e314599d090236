use vstd::prelude::*;

verus! {

/// The use case of listing the packages of a directory, over a repository
/// that does the listing.
pub struct ListEpubInteractor<'a, R> {
    repository: &'a R,
}

impl<'a, R> ListEpubInteractor<'a, R> {
    /// The repository that the use case runs on.
    pub closed spec fn repository_of(&self) -> &'a R {
        self.repository
    }

    /// The use case over the given repository.
    pub fn new(repository: &'a R) -> (r: Self)
        ensures
            r.repository_of() == repository,
    {
        Self { repository }
    }

    /// The repository that the use case runs on.
    pub fn repository(&self) -> (r: &'a R)
        ensures
            r == self.repository_of(),
    {
        self.repository
    }
}

/// The use case of loading one package, over a repository that does the
/// loading.
pub struct LoadEpubInteractor<'a, R> {
    repository: &'a R,
}

impl<'a, R> LoadEpubInteractor<'a, R> {
    /// The repository that the use case runs on.
    pub closed spec fn repository_of(&self) -> &'a R {
        self.repository
    }

    /// The use case over the given repository.
    pub fn new(repository: &'a R) -> (r: Self)
        ensures
            r.repository_of() == repository,
    {
        Self { repository }
    }

    /// The repository that the use case runs on.
    pub fn repository(&self) -> (r: &'a R)
        ensures
            r == self.repository_of(),
    {
        self.repository
    }
}

} // verus!
