//! Which repository locators are accepted.
use vstd::prelude::*;
use crate::text::{chars_start_with, to_chars};

verus! {

/// Whether a locator begins as a Git locator does: with `http://`,
/// `https://`, `git://`, `ssh://` or `git@`.
pub open spec fn has_git_prefix(url: Seq<char>) -> bool {
    ||| "http://"@.is_prefix_of(url)
    ||| "https://"@.is_prefix_of(url)
    ||| "git://"@.is_prefix_of(url)
    ||| "ssh://"@.is_prefix_of(url)
    ||| "git@"@.is_prefix_of(url)
}

/// What is said of a locator that is refused, or `None` for one that is
/// accepted.
pub open spec fn git_url_fault(url: Seq<char>) -> Option<Seq<char>> {
    if url.len() == 0 {
        Some("Git URL cannot be empty"@)
    } else if !has_git_prefix(url) {
        Some(
            "Invalid Git URL format. Must start with one of: http://, https://, git://, ssh://, git@"@,
        )
    } else {
        None
    }
}

fn begins_with(url: &Vec<char>, prefix: &str) -> (r: bool)
    ensures
        r == prefix@.is_prefix_of(url@),
{
    let p = to_chars(prefix);
    chars_start_with(url, &p)
}

/// Validate a Git URL format.
pub fn validate_git_url(url: &str) -> (r: Result<(), String>)
    ensures
        match r {
            Ok(_) => git_url_fault(url@) is None,
            Err(message) => git_url_fault(url@) == Some(message@),
        },
{
    let u = to_chars(url);
    if u.len() == 0 {
        return Err(String::from_str("Git URL cannot be empty"));
    }
    let is_valid = begins_with(&u, "http://") || begins_with(&u, "https://") || begins_with(
        &u,
        "git://",
    ) || begins_with(&u, "ssh://") || begins_with(&u, "git@");
    if !is_valid {
        return Err(
            String::from_str(
                "Invalid Git URL format. Must start with one of: http://, https://, git://, ssh://, git@",
            ),
        );
    }
    Ok(())
}

} // verus!
