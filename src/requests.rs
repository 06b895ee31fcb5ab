use vstd::prelude::*;

use crate::auth::Rejection;
use crate::json::StrFields;

verus! {

/// A request to create a category.
pub struct CategoryReq {
    pub name: String,
    pub description: Option<String>,
}

impl StrFields for CategoryReq {
    open spec fn str_fields(&self) -> Seq<(Seq<char>, Seq<char>)> {
        seq![("name"@, self.name@)]
    }

    fn str_field_list(&self) -> (r: Vec<(&'static str, &str)>) {
        vec![("name", self.name.as_str())]
    }
}

/// A request to create a genre.
pub struct GenreReq {
    pub name: String,
    pub description: Option<String>,
}

impl StrFields for GenreReq {
    open spec fn str_fields(&self) -> Seq<(Seq<char>, Seq<char>)> {
        seq![("name"@, self.name@)]
    }

    fn str_field_list(&self) -> (r: Vec<(&'static str, &str)>) {
        vec![("name", self.name.as_str())]
    }
}

/// A request about another user.
pub struct OtherUserParams {
    pub username: String,
}

impl StrFields for OtherUserParams {
    open spec fn str_fields(&self) -> Seq<(Seq<char>, Seq<char>)> {
        seq![("username"@, self.username@)]
    }

    fn str_field_list(&self) -> (r: Vec<(&'static str, &str)>) {
        vec![("username", self.username.as_str())]
    }
}

/// A request to like or unlike an interest.
pub struct LikeInterestParams {
    pub name: String,
}

impl StrFields for LikeInterestParams {
    open spec fn str_fields(&self) -> Seq<(Seq<char>, Seq<char>)> {
        seq![("name"@, self.name@)]
    }

    fn str_field_list(&self) -> (r: Vec<(&'static str, &str)>) {
        vec![("name", self.name.as_str())]
    }
}

/// A request for the shortest path from the caller to a node.
pub struct ShortestPathParams {
    pub target_label: String,
    pub target_name: String,
}

impl StrFields for ShortestPathParams {
    open spec fn str_fields(&self) -> Seq<(Seq<char>, Seq<char>)> {
        seq![("target_label"@, self.target_label@), ("target_name"@, self.target_name@)]
    }

    fn str_field_list(&self) -> (r: Vec<(&'static str, &str)>) {
        vec![("target_label", self.target_label.as_str()), ("target_name", self.target_name.as_str())]
    }
}

/// A request to match or unmatch another user.
pub struct MatchParams {
    pub target: String,
}

impl StrFields for MatchParams {
    open spec fn str_fields(&self) -> Seq<(Seq<char>, Seq<char>)> {
        seq![("target"@, self.target@)]
    }

    fn str_field_list(&self) -> (r: Vec<(&'static str, &str)>) {
        vec![("target", self.target.as_str())]
    }
}

/// Page used where a search names none.
pub const DEFAULT_PAGE: i64 = 0;

/// Page size used where a search names none.
pub const DEFAULT_PAGE_SIZE: i64 = 50;

/// A search request, optionally paged.
pub struct SearchReq {
    pub term: String,
    pub page: Option<i64>,
    pub page_size: Option<i64>,
}

impl StrFields for SearchReq {
    open spec fn str_fields(&self) -> Seq<(Seq<char>, Seq<char>)> {
        seq![("term"@, self.term@)]
    }

    fn str_field_list(&self) -> (r: Vec<(&'static str, &str)>) {
        vec![("term", self.term.as_str())]
    }
}

/// The rows of one page of results.
#[derive(Clone, Copy, Debug, PartialEq, Eq, Structural)]
pub struct PageWindow {
    /// Rows to skip before the page.
    pub skip: i64,
    /// Rows in the page.
    pub limit: i64,
}

impl SearchReq {
    pub open spec fn spec_page(&self) -> int {
        match self.page {
            Some(p) => p as int,
            None => DEFAULT_PAGE as int,
        }
    }

    pub open spec fn spec_page_size(&self) -> int {
        match self.page_size {
            Some(s) => s as int,
            None => DEFAULT_PAGE_SIZE as int,
        }
    }

    /// The rows that the requested page covers: `page * page_size` rows are
    /// skipped. A bad request where that count does not fit an `i64`.
    pub fn window(&self) -> (r: Result<PageWindow, Rejection>)
        ensures
            r matches Ok(w) ==> w.skip == self.spec_page() * self.spec_page_size() && w.limit
                == self.spec_page_size(),
            r is Err <==> !(i64::MIN <= self.spec_page() * self.spec_page_size() <= i64::MAX),
            r is Err ==> r == Err::<PageWindow, Rejection>(Rejection::BadRequest),
    {
        let page = match self.page {
            Some(p) => p,
            None => DEFAULT_PAGE,
        };
        let page_size = match self.page_size {
            Some(s) => s,
            None => DEFAULT_PAGE_SIZE,
        };
        match page.checked_mul(page_size) {
            Some(skip) => Ok(PageWindow { skip, limit: page_size }),
            None => Err(Rejection::BadRequest),
        }
    }
}

} // verus!
