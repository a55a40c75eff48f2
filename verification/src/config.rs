//! The configuration-side logic the control loop depends on: default values,
//! picking the single match of a wildcard path, and resolving the heat
//! source names a fan lists into indices.  Reading and decoding the
//! configuration file, and expanding the wildcards, stay with the caller;
//! only already-decoded plain values arrive here.

use vstd::prelude::*;

verus! {

/// The default upper end of a fan's duty range.
pub fn def_max_pwm() -> (r: u32)
    ensures
        r == 255,
{
    255
}

/// The default sampling interval, in milliseconds.
pub fn def_interval() -> (r: u32)
    ensures
        r == 500,
{
    500
}

/// Why a wildcard path does not resolve to a usable device path.
#[derive(Clone, Copy, Debug, PartialEq, Eq, Structural)]
pub enum PathError {
    /// The wildcard matched more than one path.
    Multiple,
    /// The wildcard matched nothing.
    NoMatch,
}

/// Picks the single match of a wildcard path: exactly one match is returned,
/// none or several are errors.
pub fn pick_single(mut paths: Vec<String>) -> (r: Result<String, PathError>)
    ensures
        match r {
            Ok(p) => paths@.len() == 1 && p@ == paths@[0]@,
            Err(PathError::Multiple) => paths@.len() > 1,
            Err(PathError::NoMatch) => paths@.len() == 0,
        },
{
    if paths.len() > 1 {
        Err(PathError::Multiple)
    } else {
        match paths.pop() {
            Some(p) => Ok(p),
            None => Err(PathError::NoMatch),
        }
    }
}

/// A dangling reference in the configuration: a fan names a heat source
/// that is not declared.
#[derive(Clone, Copy, Debug, PartialEq, Eq, Structural)]
pub enum ConfigError {
    /// Index (into the fan's source-name list) of the first name that no
    /// declared heat source carries.
    UnknownHeatSrc { wanted: usize },
}

/// The index a name resolves to among the declared heat source names: the
/// position of its last occurrence (a repeated name shadows earlier ones,
/// as an insertion-ordered map would), or `-1` when it does not occur.
pub open spec fn last_index_of(names: Seq<Seq<char>>, name: Seq<char>) -> int
    decreases names.len(),
{
    if names.len() == 0 {
        -1
    } else if names.last() == name {
        names.len() - 1
    } else {
        last_index_of(names.drop_last(), name)
    }
}

/// The position of the last occurrence of `name` among `names`, if any.
fn find_last(names: &Vec<String>, name: &String) -> (r: Option<usize>)
    ensures
        match r {
            Some(m) => m < names@.len() && last_index_of(names.deep_view(), name@) == m,
            None => last_index_of(names.deep_view(), name@) == -1,
        },
{
    let ghost dv = names.deep_view();
    let mut found: Option<usize> = None;
    let n: usize = names.len();
    let mut k: usize = 0;
    while k < n
        invariant
            0 <= k <= n,
            n == names@.len(),
            dv == names.deep_view(),
            dv.len() == n,
            forall|i: int| 0 <= i < n ==> #[trigger] dv[i] == names@[i]@,
            match found {
                Some(m) => m < k && last_index_of(dv.take(k as int), name@) == m,
                None => last_index_of(dv.take(k as int), name@) == -1,
            },
        decreases n - k,
    {
        proof {
            assert(dv.take(k + 1).drop_last() =~= dv.take(k as int));
            assert(dv.take(k + 1).last() == dv[k as int]);
        }
        if names[k] == *name {
            found = Some(k);
        }
        k = k + 1;
    }
    proof {
        assert(dv.take(n as int) =~= dv);
    }
    found
}

/// Resolves the heat source names a fan lists into indices among the
/// declared heat sources.  A name declared more than once resolves to its
/// last declaration; a name declared nowhere is a configuration error
/// carrying the position of the first such name.
pub fn resolve_heat_srcs(heat_names: &Vec<String>, wanted: &Vec<String>) -> (r: Result<
    Vec<usize>,
    ConfigError,
>)
    ensures
        match r {
            Ok(v) => {
                &&& v@.len() == wanted@.len()
                &&& forall|j: int|
                    0 <= j < wanted@.len() ==> last_index_of(
                        heat_names.deep_view(),
                        #[trigger] wanted@[j]@,
                    ) >= 0
                &&& forall|j: int|
                    0 <= j < wanted@.len() ==> #[trigger] v@[j] == last_index_of(
                        heat_names.deep_view(),
                        wanted@[j]@,
                    )
                &&& forall|j: int| 0 <= j < v@.len() ==> #[trigger] v@[j] < heat_names@.len()
            },
            Err(ConfigError::UnknownHeatSrc { wanted: j }) => {
                &&& 0 <= j < wanted@.len()
                &&& last_index_of(heat_names.deep_view(), wanted@[j as int]@) == -1
                &&& forall|i: int|
                    0 <= i < j ==> last_index_of(heat_names.deep_view(), #[trigger] wanted@[i]@)
                        >= 0
            },
        },
{
    let mut resolved: Vec<usize> = Vec::new();
    let n: usize = wanted.len();
    let mut j: usize = 0;
    while j < n
        invariant
            0 <= j <= n,
            n == wanted@.len(),
            resolved@.len() == j,
            forall|i: int|
                0 <= i < j ==> last_index_of(heat_names.deep_view(), #[trigger] wanted@[i]@) >= 0,
            forall|i: int|
                0 <= i < j ==> #[trigger] resolved@[i] == last_index_of(
                    heat_names.deep_view(),
                    wanted@[i]@,
                ),
            forall|i: int| 0 <= i < j ==> #[trigger] resolved@[i] < heat_names@.len(),
        decreases n - j,
    {
        match find_last(heat_names, &wanted[j]) {
            Some(m) => resolved.push(m),
            None => {
                return Err(ConfigError::UnknownHeatSrc { wanted: j });
            },
        }
        j = j + 1;
    }
    Ok(resolved)
}

} // verus!
