//! Expanding declared path strings into usable absolute paths.
//!
//! A declared path is handled by exactly one rule, checked in order: a
//! leading `~` is expanded to the home directory; otherwise a path holding
//! `$` gets shell-style environment interpolation; otherwise a relative
//! path is joined onto the working directory; an absolute path passes
//! through unchanged. A path that is both (`~/$VAR`) is handled only by
//! the tilde rule: one expansion mode applies per path.

use vstd::prelude::*;
use crate::state::ResolveError;

verus! {

/// The path holds a `$` character somewhere.
pub open spec fn has_dollar(s: Seq<char>) -> bool {
    exists|i: int| 0 <= i < s.len() && s[i] == '$'
}

/// The path begins with `~`.
pub open spec fn starts_tilde(s: Seq<char>) -> bool {
    s.len() > 0 && s[0] == '~'
}

/// The path is absolute.
pub open spec fn is_absolute(s: Seq<char>) -> bool {
    s.len() > 0 && s[0] == '/'
}

/// A relative path joined onto a working directory: a `/` separator is
/// added unless the directory already ends with one.
pub open spec fn join_paths(cwd: Seq<char>, rel: Seq<char>) -> Seq<char> {
    if cwd.len() > 0 && cwd[cwd.len() - 1] == '/' {
        cwd + rel
    } else {
        cwd + seq!['/'] + rel
    }
}

/// Relies on shellexpand::tilde: an input that does not begin with `~` is
/// returned unchanged; one that does has its leading `~` replaced by some
/// prefix (the home directory where one is found, the `~` itself where
/// not). The call never fails.
#[verifier::external_body]
fn expand_tilde(s: &str) -> (r: String)
    ensures
        !starts_tilde(s@) ==> r@ == s@,
        starts_tilde(s@) ==> exists|h: Seq<char>| r@ == h + s@.skip(1),
{
    shellexpand::tilde(s).into_owned()
}

/// Relies on shellexpand::env: an input without `$` is returned unchanged;
/// otherwise every `$NAME` and `${NAME}` reference is interpolated, and a
/// reference to an unset variable fails with that variable's name.
#[verifier::external_body]
fn expand_env(s: &str) -> (r: Result<String, String>)
    ensures
        !has_dollar(s@) ==> r is Ok && r->Ok_0@ == s@,
{
    match shellexpand::env(s) {
        Ok(expanded) => Ok(expanded.into_owned()),
        Err(err) => Err(err.var_name),
    }
}

/// Decides `has_dollar`.
fn scan_dollar(s: &str) -> (b: bool)
    ensures
        b == has_dollar(s@),
{
    let n = s.unicode_len();
    let mut i: usize = 0;
    while i < n
        invariant
            i <= n,
            n == s@.len(),
            forall|k: int| 0 <= k < i ==> s@[k] != '$',
        decreases n - i,
    {
        if s.get_char(i) == '$' {
            return true;
        }
        i = i + 1;
    }
    false
}

/// Expands a declared path into a usable absolute path, against the given
/// working directory. Only the environment rule can fail, and only when a
/// referenced variable is unset.
pub fn resolve_path(declared: &str, cwd: &str) -> (r: Result<String, ResolveError>)
    ensures
        starts_tilde(declared@) ==> r is Ok && (exists|h: Seq<char>| r->Ok_0@ == h
            + declared@.skip(1)),
        !starts_tilde(declared@) && !has_dollar(declared@) && is_absolute(declared@) ==> r is Ok
            && r->Ok_0@ == declared@,
        !starts_tilde(declared@) && !has_dollar(declared@) && !is_absolute(declared@) ==> r is Ok
            && r->Ok_0@ == join_paths(cwd@, declared@),
        r is Err ==> !starts_tilde(declared@) && has_dollar(declared@),
{
    if declared.unicode_len() > 0 && declared.get_char(0) == '~' {
        return Ok(expand_tilde(declared));
    }
    if scan_dollar(declared) {
        return match expand_env(declared) {
            Ok(expanded) => Ok(expanded),
            Err(var) => Err(ResolveError::UnboundVariable { var }),
        };
    }
    if declared.unicode_len() > 0 && declared.get_char(0) == '/' {
        return Ok(declared.to_owned());
    }
    let cwd_len = cwd.unicode_len();
    let joined = if cwd_len > 0 && cwd.get_char(cwd_len - 1) == '/' {
        cwd.to_owned().concat(declared)
    } else {
        let with_sep = cwd.to_owned().concat("/");
        proof {
            reveal_strlit("/");
            assert("/"@ =~= seq!['/']);
        }
        with_sep.concat(declared)
    };
    assert(joined@ =~= join_paths(cwd@, declared@));
    Ok(joined)
}

/// The path at which `disable`'s counterpart operation parks the previous
/// target: the target path with `.bak` appended.
pub fn backup_path(target: &str) -> (r: String)
    ensures
        r@ == target@ + ".bak"@,
{
    target.to_owned().concat(".bak")
}

} // verus!
