//! The cookie deletions of a clean pass.
use vstd::prelude::*;

verus! {

/// What identifies a cookie for deletion: its name and its domain.
#[derive(Clone, Debug, PartialEq, Eq)]
pub struct CookieKey {
    pub name: String,
    pub domain: String,
}

/// A request to delete the cookies that match it. A field that is `None`
/// does not constrain the match.
#[derive(Clone, Debug, PartialEq, Eq)]
pub struct CookieDeletion {
    pub name: String,
    pub domain: Option<String>,
    pub path: Option<String>,
    pub url: Option<String>,
}

/// `d` deletes every cookie named like `k` on `k`'s domain, whatever its path.
pub open spec fn deletes(d: CookieDeletion, k: CookieKey) -> bool {
    &&& d.name@ == k.name@
    &&& d.domain matches Some(dom) && dom@ == k.domain@
    &&& d.path is None
    &&& d.url is None
}

/// One deletion for each cookie, in the same order.
pub open spec fn deletions_for(ds: Seq<CookieDeletion>, ks: Seq<CookieKey>) -> bool {
    &&& ds.len() == ks.len()
    &&& forall|i: int| 0 <= i < ks.len() ==> #[trigger] deletes(ds[i], ks[i])
}

/// The deletions that clear the given cookies, keyed by name and domain
/// with path and URL left open.
pub fn deletion_requests(cookies: &Vec<CookieKey>) -> (r: Vec<CookieDeletion>)
    ensures
        deletions_for(r@, cookies@),
{
    let mut r: Vec<CookieDeletion> = Vec::new();
    let mut i: usize = 0;
    while i < cookies.len()
        invariant
            i <= cookies.len(),
            r.len() == i,
            forall|j: int| 0 <= j < i ==> #[trigger] deletes(r@[j], cookies@[j]),
        decreases cookies.len() - i,
    {
        let k = &cookies[i];
        r.push(
            CookieDeletion {
                name: k.name.clone(),
                domain: Some(k.domain.clone()),
                path: None,
                url: None,
            },
        );
        i = i + 1;
    }
    r
}

} // verus!
