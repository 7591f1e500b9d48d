//! The authorization gate: which roles may see which page directory.

use vstd::prelude::*;
use vstd::string::*;
use crate::session::User;

verus! {

/// The role that may view every page.
pub open spec fn admin_role() -> Seq<char> {
    seq!['a', 'd', 'm', 'i', 'n']
}

/// `roles` holds a role whose text is `role`.
pub open spec fn has_role(roles: Seq<String>, role: Seq<char>) -> bool {
    exists|i: int| 0 <= i < roles.len() && #[trigger] roles[i]@ == role
}

/// A user holding `roles` may view the page directory named `page`.
pub open spec fn can_view(roles: Seq<String>, page: Seq<char>) -> bool {
    has_role(roles, admin_role()) || has_role(roles, page)
}

/// Whether `roles` holds a role equal to `role`.
pub fn contains_role(roles: &[String], role: &String) -> (r: bool)
    ensures
        r == has_role(roles@, role@),
{
    let mut i: usize = 0;
    while i < roles.len()
        invariant
            i <= roles@.len(),
            forall|j: int| 0 <= j < i ==> #[trigger] roles@[j]@ != role@,
        decreases roles@.len() - i,
    {
        if roles[i] == *role {
            return true;
        }
        i = i + 1;
    }
    false
}

/// Whether a user holding `roles` may view the page directory named `page`:
/// exact, case-sensitive match, or the `admin` role.
pub fn user_can_view_page(roles: &[String], page: &String) -> (r: bool)
    ensures
        r == can_view(roles@, page@),
{
    let admin: String = String::from_str("admin");
    proof {
        reveal_strlit("admin");
    }
    assert(admin@ == admin_role());
    contains_role(roles, &admin) || contains_role(roles, page)
}

/// The answer to a request for a file of a page.
#[derive(Debug, Clone, Copy, PartialEq, Eq, Structural)]
pub enum PageAccess {
    Serve,
    NotFound,
}

/// The answer for `user` (`None` when nobody is logged in) asking for a
/// file of page `page` that exists on disk or not: served only when the
/// user may view the page and the file exists.
pub open spec fn access_of(user: Option<User>, page: Seq<char>, exists: bool) -> PageAccess {
    if user matches Some(u) && can_view(u.roles@, page) && exists {
        PageAccess::Serve
    } else {
        PageAccess::NotFound
    }
}

/// Decides whether a file of page `page` is served to `user`.
pub fn page_access(user: &Option<User>, page: &String, exists: bool) -> (r: PageAccess)
    ensures
        r == access_of(*user, page@, exists),
{
    match user {
        Some(u) => {
            if exists && user_can_view_page(u.roles.as_slice(), page) {
                PageAccess::Serve
            } else {
                PageAccess::NotFound
            }
        },
        None => PageAccess::NotFound,
    }
}

/// A page that exists but that the user may not view is answered exactly
/// as a page that does not exist, so protected page names cannot be probed.
pub proof fn hidden_page_looks_missing(user: Option<User>, page: Seq<char>, other: Seq<char>)
    requires
        !(user matches Some(u) && can_view(u.roles@, page)),
    ensures
        access_of(user, page, true) == access_of(user, other, false),
        access_of(user, page, true) == PageAccess::NotFound,
{
}

} // verus!
