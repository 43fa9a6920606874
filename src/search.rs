//! Sort keys and orderings accepted by the search endpoints.
use vstd::prelude::*;
use crate::graph::SearchArea;

verus! {

/// Specifies what to use to sort the results of a repository search.
#[derive(Clone, Copy, Debug, PartialEq, Eq, Structural)]
pub enum SortRepositoriesBy {
    /// Sort by the number of stars
    Stars,
    /// Sort by the number of forks
    Forks,
    /// Sort by the date the repository was last updated
    Updated,
}

/// Specifies what to use to sort the results of a code search.
#[derive(Clone, Copy, Debug, PartialEq, Eq, Structural)]
pub enum SortCodeBy {
    /// Sort by the last time the file was indexed
    Indexed,
}

/// Specifies what to use to sort the results of an issue search.
#[derive(Clone, Copy, Debug, PartialEq, Eq, Structural)]
pub enum SortIssuesBy {
    /// Sort by the number of comments
    Comments,
    /// Sort by the date the issue was created
    Created,
    /// Sort by the date the issue was last updated
    Updated,
}

/// Specifies what to use to sort the results of a user search.
#[derive(Clone, Copy, Debug, PartialEq, Eq, Structural)]
pub enum SortUsersBy {
    /// Sort by number of followers
    Followers,
    /// Sort by number of repositories
    Repositories,
    /// Sort by join date
    Joined,
}

/// Specifies how to order query results.
#[derive(Clone, Copy, Debug, PartialEq, Eq, Structural)]
pub enum OrderBy {
    /// Sort in ascending order
    Asc,
    /// Sort in descending order (the server's default)
    Desc,
}

impl SortRepositoriesBy {
    pub open spec fn spec_text(self) -> Seq<char> {
        match self {
            SortRepositoriesBy::Stars => "stars"@,
            SortRepositoriesBy::Forks => "forks"@,
            SortRepositoriesBy::Updated => "updated"@,
        }
    }

    /// The value of the `sort` query parameter for this key.
    pub fn to_string(&self) -> (r: String)
        ensures
            r@ == self.spec_text(),
    {
        match *self {
            SortRepositoriesBy::Stars => "stars".to_owned(),
            SortRepositoriesBy::Forks => "forks".to_owned(),
            SortRepositoriesBy::Updated => "updated".to_owned(),
        }
    }
}

impl SortCodeBy {
    pub open spec fn spec_text(self) -> Seq<char> {
        match self {
            SortCodeBy::Indexed => "indexed"@,
        }
    }

    /// The value of the `sort` query parameter for this key.
    pub fn to_string(&self) -> (r: String)
        ensures
            r@ == self.spec_text(),
    {
        match *self {
            SortCodeBy::Indexed => "indexed".to_owned(),
        }
    }
}

impl SortIssuesBy {
    pub open spec fn spec_text(self) -> Seq<char> {
        match self {
            SortIssuesBy::Comments => "comments"@,
            SortIssuesBy::Created => "created"@,
            SortIssuesBy::Updated => "updated"@,
        }
    }

    /// The value of the `sort` query parameter for this key.
    pub fn to_string(&self) -> (r: String)
        ensures
            r@ == self.spec_text(),
    {
        match *self {
            SortIssuesBy::Comments => "comments".to_owned(),
            SortIssuesBy::Created => "created".to_owned(),
            SortIssuesBy::Updated => "updated".to_owned(),
        }
    }
}

impl SortUsersBy {
    pub open spec fn spec_text(self) -> Seq<char> {
        match self {
            SortUsersBy::Followers => "followers"@,
            SortUsersBy::Repositories => "repositories"@,
            SortUsersBy::Joined => "joined"@,
        }
    }

    /// The value of the `sort` query parameter for this key.
    pub fn to_string(&self) -> (r: String)
        ensures
            r@ == self.spec_text(),
    {
        match *self {
            SortUsersBy::Followers => "followers".to_owned(),
            SortUsersBy::Repositories => "repositories".to_owned(),
            SortUsersBy::Joined => "joined".to_owned(),
        }
    }
}

impl OrderBy {
    pub open spec fn spec_text(self) -> Seq<char> {
        match self {
            OrderBy::Asc => "asc"@,
            OrderBy::Desc => "desc"@,
        }
    }

    /// The value of the `order` query parameter.
    pub fn to_string(&self) -> (r: String)
        ensures
            r@ == self.spec_text(),
    {
        match *self {
            OrderBy::Asc => "asc".to_owned(),
            OrderBy::Desc => "desc".to_owned(),
        }
    }
}


/// A sort key of one of the search areas.
#[derive(Clone, Copy, Debug, PartialEq, Eq, Structural)]
pub enum SortBy {
    Repositories(SortRepositoriesBy),
    Code(SortCodeBy),
    Issues(SortIssuesBy),
    Users(SortUsersBy),
}

impl SortBy {
    /// The search area whose results this key sorts.
    pub open spec fn spec_area(self) -> SearchArea {
        match self {
            SortBy::Repositories(_) => SearchArea::Repositories,
            SortBy::Code(_) => SearchArea::Code,
            SortBy::Issues(_) => SearchArea::Issues,
            SortBy::Users(_) => SearchArea::Users,
        }
    }

    pub open spec fn spec_text(self) -> Seq<char> {
        match self {
            SortBy::Repositories(k) => k.spec_text(),
            SortBy::Code(k) => k.spec_text(),
            SortBy::Issues(k) => k.spec_text(),
            SortBy::Users(k) => k.spec_text(),
        }
    }

    /// The search area whose results this key sorts.
    pub fn area(&self) -> (r: SearchArea)
        ensures
            r == self.spec_area(),
    {
        match *self {
            SortBy::Repositories(_) => SearchArea::Repositories,
            SortBy::Code(_) => SearchArea::Code,
            SortBy::Issues(_) => SearchArea::Issues,
            SortBy::Users(_) => SearchArea::Users,
        }
    }

    /// The value of the `sort` query parameter for this key.
    pub fn to_string(&self) -> (r: String)
        ensures
            r@ == self.spec_text(),
    {
        match *self {
            SortBy::Repositories(k) => k.to_string(),
            SortBy::Code(k) => k.to_string(),
            SortBy::Issues(k) => k.to_string(),
            SortBy::Users(k) => k.to_string(),
        }
    }
}

} // verus!
