//! Checks on values given on the command line.
use crate::domain::Repo;
use vstd::prelude::*;

verus! {

/// Relies on `str::split_once`: splits `s` around the first `/`, or gives
/// `None` when `s` holds none.
#[verifier::external_body]
fn split_at_slash(s: &str) -> (r: Option<(&str, &str)>)
    ensures
        r is None <==> !s@.contains('/'),
        r matches Some(p) ==> s@ == p.0@ + seq!['/'] + p.1@ && !p.0@.contains('/'),
{
    s.split_once('/')
}

/// Relies on `str::ends_with`: whether `s` ends with `suffix`.
#[verifier::external_body]
fn ends_with(s: &str, suffix: &str) -> (r: bool)
    ensures
        r == (suffix@.len() <= s@.len() && s@.subrange(s@.len() - suffix@.len(), s@.len() as int)
            == suffix@),
{
    s.ends_with(suffix)
}

/// Reads a repository written as `owner/name`: the owner is what stands
/// before the first `/`, the name what follows it.
pub fn validate_repo(s: &str) -> (r: Result<Repo, String>)
    ensures
        r is Err <==> !s@.contains('/'),
        r matches Ok(repo) ==> s@ == repo.owner@ + seq!['/'] + repo.repo@ && !repo.owner@.contains(
            '/',
        ),
        r matches Err(e) ==> e@ == "repo needs to be in the form \"owner/repo\""@,
{
    match split_at_slash(s) {
        Some((owner, repo)) => Ok(Repo { owner: owner.to_string(), repo: repo.to_string() }),
        None => Err(String::from_str("repo needs to be in the form \"owner/repo\"")),
    }
}

/// Accepts a path to a text file: one that ends with `.txt`.
pub fn validate_txt_path(s: &str) -> (r: Result<String, String>)
    ensures
        r is Ok <==> (s@.len() >= 4 && s@.subrange(s@.len() - 4, s@.len() as int) == ".txt"@),
        r matches Ok(p) ==> p@ == s@,
        r matches Err(e) ==> e@ == "file must have a .txt extension"@,
{
    proof {
        reveal_strlit(".txt");
    }
    if ends_with(s, ".txt") {
        Ok(s.to_string())
    } else {
        Err(String::from_str("file must have a .txt extension"))
    }
}

} // verus!
