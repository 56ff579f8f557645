//! The flag record: which defaulting decisions the caller has already made,
//! detected from the cargo-level argument segment.

use vstd::prelude::*;

use crate::tokens::{
    is_all_features_arg, is_features_arg, is_manifest_path_arg,
    is_no_default_features_arg, is_no_deps_arg, is_package_arg, is_target_arg, is_workspace_arg,
    without_tok,
};

verus! {

/// Which scope-selection decisions appear in the argument list.
#[derive(Debug, Clone, Copy, PartialEq, Eq, Structural)]
pub struct ScopeFlags {
    pub has_package: bool,
    pub has_workspace: bool,
    pub has_manifest_path: bool,
}

/// Which feature-selection decisions appear in the argument list.
#[derive(Debug, Clone, Copy, PartialEq, Eq, Structural)]
pub struct FeatureSelectionFlags {
    pub has_all_features: bool,
    pub has_features: bool,
    pub has_no_default_features: bool,
}

/// The full flag record: a pure function of the cargo-level argument
/// segment, constructed once and only read afterwards.
#[derive(Debug, Clone, Copy, PartialEq, Eq, Structural)]
pub struct DetectedFlags {
    pub scope: ScopeFlags,
    pub feature_selection: FeatureSelectionFlags,
    pub has_no_deps: bool,
    pub has_target_selection: bool,
}

/// Some element of `args` satisfies `pred`.
pub open spec fn some_arg(args: Seq<Seq<char>>, pred: spec_fn(Seq<char>) -> bool) -> bool {
    exists|i: int| 0 <= i < args.len() && pred(args[i])
}

/// The flag record of an argument list: each boolean is true exactly when
/// some token in the list uses one of the recognized spellings for that
/// decision.
pub open spec fn spec_detect_flags(args: Seq<Seq<char>>) -> DetectedFlags {
    DetectedFlags {
        scope: ScopeFlags {
            has_package: some_arg(args, |a: Seq<char>| is_package_arg(a)),
            has_workspace: some_arg(args, |a: Seq<char>| is_workspace_arg(a)),
            has_manifest_path: some_arg(args, |a: Seq<char>| is_manifest_path_arg(a)),
        },
        feature_selection: FeatureSelectionFlags {
            has_all_features: some_arg(args, |a: Seq<char>| is_all_features_arg(a)),
            has_features: some_arg(args, |a: Seq<char>| is_features_arg(a)),
            has_no_default_features: some_arg(args, |a: Seq<char>| is_no_default_features_arg(a)),
        },
        has_no_deps: some_arg(args, |a: Seq<char>| is_no_deps_arg(a)),
        has_target_selection: some_arg(args, |a: Seq<char>| is_target_arg(a)),
    }
}

/// Extending the scanned prefix by one token either finds a match in the
/// new token or leaves the observation unchanged.
proof fn lemma_some_arg_extend(args: Seq<Seq<char>>, pred: spec_fn(Seq<char>) -> bool, k: int)
    requires
        0 <= k < args.len(),
    ensures
        some_arg(args.take(k + 1), pred) == (some_arg(args.take(k), pred) || pred(args[k])),
{
    let before = args.take(k);
    let after = args.take(k + 1);
    if some_arg(after, pred) {
        let i = choose|i: int| 0 <= i < after.len() && pred(after[i]);
        assert(after[i] == args[i]);
        if i < k {
            assert(before[i] == args[i]);
            assert(some_arg(before, pred));
        }
    }
    if some_arg(before, pred) {
        let i = choose|i: int| 0 <= i < before.len() && pred(before[i]);
        assert(after[i] == before[i]);
        assert(some_arg(after, pred));
    }
    if pred(args[k]) {
        assert(after[k] == args[k]);
        assert(some_arg(after, pred));
    }
}

/// On a one-element list, an observation holds exactly of that element.
pub proof fn lemma_some_arg_singleton(x: Seq<char>, pred: spec_fn(Seq<char>) -> bool)
    ensures
        some_arg(seq![x], pred) == pred(x),
{
    assert(seq![x][0] == x);
    if some_arg(seq![x], pred) {
        let i = choose|i: int| 0 <= i < seq![x].len() && pred(seq![x][i]);
        assert(seq![x][i] == x);
    }
    if pred(x) {
        assert(pred(seq![x][0]));
        assert(some_arg(seq![x], pred));
    }
}

/// On a two-element list, an observation holds exactly of one of the two.
pub proof fn lemma_some_arg_pair(x: Seq<char>, y: Seq<char>, pred: spec_fn(Seq<char>) -> bool)
    ensures
        some_arg(seq![x, y], pred) == (pred(x) || pred(y)),
{
    assert(seq![x, y][0] == x);
    assert(seq![x, y][1] == y);
    if some_arg(seq![x, y], pred) {
        let i = choose|i: int| 0 <= i < seq![x, y].len() && pred(seq![x, y][i]);
        assert(i == 0 || i == 1);
    }
    if pred(x) {
        assert(pred(seq![x, y][0]));
        assert(some_arg(seq![x, y], pred));
    }
    if pred(y) {
        assert(pred(seq![x, y][1]));
        assert(some_arg(seq![x, y], pred));
    }
}

/// The empty argument list sets no flag.
pub proof fn lemma_detect_empty()
    ensures
        !spec_detect_flags(Seq::<Seq<char>>::empty()).scope.has_package,
        !spec_detect_flags(Seq::<Seq<char>>::empty()).scope.has_workspace,
        !spec_detect_flags(Seq::<Seq<char>>::empty()).scope.has_manifest_path,
        !spec_detect_flags(Seq::<Seq<char>>::empty()).feature_selection.has_all_features,
        !spec_detect_flags(Seq::<Seq<char>>::empty()).feature_selection.has_features,
        !spec_detect_flags(Seq::<Seq<char>>::empty()).feature_selection.has_no_default_features,
        !spec_detect_flags(Seq::<Seq<char>>::empty()).has_no_deps,
        !spec_detect_flags(Seq::<Seq<char>>::empty()).has_target_selection,
{
}

/// On a one-element argument list, each flag records whether that one
/// token uses the matching spelling.
pub proof fn lemma_detect_singleton(x: Seq<char>)
    ensures
        spec_detect_flags(seq![x]).scope.has_package == is_package_arg(x),
        spec_detect_flags(seq![x]).scope.has_workspace == is_workspace_arg(x),
        spec_detect_flags(seq![x]).scope.has_manifest_path == is_manifest_path_arg(x),
        spec_detect_flags(seq![x]).feature_selection.has_all_features == is_all_features_arg(x),
        spec_detect_flags(seq![x]).feature_selection.has_features == is_features_arg(x),
        spec_detect_flags(seq![x]).feature_selection.has_no_default_features
            == is_no_default_features_arg(x),
        spec_detect_flags(seq![x]).has_no_deps == is_no_deps_arg(x),
        spec_detect_flags(seq![x]).has_target_selection == is_target_arg(x),
{
    lemma_some_arg_singleton(x, |a: Seq<char>| is_package_arg(a));
    lemma_some_arg_singleton(x, |a: Seq<char>| is_workspace_arg(a));
    lemma_some_arg_singleton(x, |a: Seq<char>| is_manifest_path_arg(a));
    lemma_some_arg_singleton(x, |a: Seq<char>| is_all_features_arg(a));
    lemma_some_arg_singleton(x, |a: Seq<char>| is_features_arg(a));
    lemma_some_arg_singleton(x, |a: Seq<char>| is_no_default_features_arg(a));
    lemma_some_arg_singleton(x, |a: Seq<char>| is_no_deps_arg(a));
    lemma_some_arg_singleton(x, |a: Seq<char>| is_target_arg(a));
}

/// On a two-element argument list, each flag records whether either token
/// uses the matching spelling.
pub proof fn lemma_detect_pair(x: Seq<char>, y: Seq<char>)
    ensures
        spec_detect_flags(seq![x, y]).scope.has_package == (is_package_arg(x) || is_package_arg(
            y,
        )),
        spec_detect_flags(seq![x, y]).scope.has_workspace == (is_workspace_arg(x)
            || is_workspace_arg(y)),
        spec_detect_flags(seq![x, y]).scope.has_manifest_path == (is_manifest_path_arg(x)
            || is_manifest_path_arg(y)),
        spec_detect_flags(seq![x, y]).feature_selection.has_all_features == (is_all_features_arg(
            x,
        ) || is_all_features_arg(y)),
        spec_detect_flags(seq![x, y]).feature_selection.has_features == (is_features_arg(x)
            || is_features_arg(y)),
        spec_detect_flags(seq![x, y]).feature_selection.has_no_default_features == (
        is_no_default_features_arg(x) || is_no_default_features_arg(y)),
        spec_detect_flags(seq![x, y]).has_no_deps == (is_no_deps_arg(x) || is_no_deps_arg(y)),
        spec_detect_flags(seq![x, y]).has_target_selection == (is_target_arg(x) || is_target_arg(
            y,
        )),
{
    lemma_some_arg_pair(x, y, |a: Seq<char>| is_package_arg(a));
    lemma_some_arg_pair(x, y, |a: Seq<char>| is_workspace_arg(a));
    lemma_some_arg_pair(x, y, |a: Seq<char>| is_manifest_path_arg(a));
    lemma_some_arg_pair(x, y, |a: Seq<char>| is_all_features_arg(a));
    lemma_some_arg_pair(x, y, |a: Seq<char>| is_features_arg(a));
    lemma_some_arg_pair(x, y, |a: Seq<char>| is_no_default_features_arg(a));
    lemma_some_arg_pair(x, y, |a: Seq<char>| is_no_deps_arg(a));
    lemma_some_arg_pair(x, y, |a: Seq<char>| is_target_arg(a));
}

/// Does this token select packages?
fn arg_is_package(a: &String) -> (r: bool)
    ensures
        r == is_package_arg(a@),
{
    crate::tokens::arg_eq(a, "-p") || crate::tokens::arg_eq(a, "--package")
        || crate::tokens::arg_has_prefix(a, "--package=") || (crate::tokens::arg_has_prefix(
        a,
        "-p",
    ) && crate::tokens::arg_len(a) > 2)
}

/// Does this token select a manifest path?
fn arg_is_manifest_path(a: &String) -> (r: bool)
    ensures
        r == is_manifest_path_arg(a@),
{
    crate::tokens::arg_eq(a, "--manifest-path") || crate::tokens::arg_has_prefix(
        a,
        "--manifest-path=",
    )
}

/// Does this token select build targets?
fn arg_is_target(a: &String) -> (r: bool)
    ensures
        r == is_target_arg(a@),
{
    crate::tokens::arg_eq(a, "--all-targets") || crate::tokens::arg_eq(a, "--lib")
        || crate::tokens::arg_eq(a, "--bins") || crate::tokens::arg_eq(a, "--tests")
        || crate::tokens::arg_eq(a, "--benches") || crate::tokens::arg_eq(a, "--examples")
        || crate::tokens::arg_eq(a, "--targets") || crate::tokens::arg_eq(a, "--bin")
        || crate::tokens::arg_eq(a, "--test") || crate::tokens::arg_eq(a, "--bench")
        || crate::tokens::arg_eq(a, "--example") || crate::tokens::arg_has_prefix(a, "--bin=")
        || crate::tokens::arg_has_prefix(a, "--test=") || crate::tokens::arg_has_prefix(
        a,
        "--bench=",
    ) || crate::tokens::arg_has_prefix(a, "--example=")
}

/// Does this token supply an explicit feature list?
fn arg_is_features(a: &String) -> (r: bool)
    ensures
        r == is_features_arg(a@),
{
    crate::tokens::arg_eq(a, "--features") || crate::tokens::arg_has_prefix(a, "--features=")
}

/// Scan the cargo-level argument segment and record which defaulting
/// decisions the caller has already made.  Each boolean only ever turns
/// true; later tokens never override earlier detections.
pub fn detect_flags(user_cargo_args: &Vec<String>) -> (flags: DetectedFlags)
    ensures
        flags == spec_detect_flags(user_cargo_args.deep_view()),
{
    let ghost dv = user_cargo_args.deep_view();
    let mut flags = DetectedFlags {
        scope: ScopeFlags { has_package: false, has_workspace: false, has_manifest_path: false },
        feature_selection: FeatureSelectionFlags {
            has_all_features: false,
            has_features: false,
            has_no_default_features: false,
        },
        has_no_deps: false,
        has_target_selection: false,
    };
    let n = user_cargo_args.len();
    let mut i: usize = 0;
    proof {
        assert(dv.take(0) =~= Seq::<Seq<char>>::empty());
    }
    while i < n
        invariant
            i <= n,
            n == user_cargo_args.len(),
            dv == user_cargo_args.deep_view(),
            flags.scope.has_package == some_arg(
                dv.take(i as int),
                |a: Seq<char>| is_package_arg(a),
            ),
            flags.scope.has_workspace == some_arg(
                dv.take(i as int),
                |a: Seq<char>| is_workspace_arg(a),
            ),
            flags.scope.has_manifest_path == some_arg(
                dv.take(i as int),
                |a: Seq<char>| is_manifest_path_arg(a),
            ),
            flags.feature_selection.has_all_features == some_arg(
                dv.take(i as int),
                |a: Seq<char>| is_all_features_arg(a),
            ),
            flags.feature_selection.has_features == some_arg(
                dv.take(i as int),
                |a: Seq<char>| is_features_arg(a),
            ),
            flags.feature_selection.has_no_default_features == some_arg(
                dv.take(i as int),
                |a: Seq<char>| is_no_default_features_arg(a),
            ),
            flags.has_no_deps == some_arg(dv.take(i as int), |a: Seq<char>| is_no_deps_arg(a)),
            flags.has_target_selection == some_arg(
                dv.take(i as int),
                |a: Seq<char>| is_target_arg(a),
            ),
        decreases n - i,
    {
        let arg = &user_cargo_args[i];
        assert(arg@ == dv[i as int]);
        if arg_is_package(arg) {
            flags.scope.has_package = true;
        }
        if crate::tokens::arg_eq(arg, "--workspace") {
            flags.scope.has_workspace = true;
        }
        if arg_is_manifest_path(arg) {
            flags.scope.has_manifest_path = true;
        }
        if crate::tokens::arg_eq(arg, "--all-features") {
            flags.feature_selection.has_all_features = true;
        }
        if arg_is_features(arg) {
            flags.feature_selection.has_features = true;
        }
        if crate::tokens::arg_eq(arg, "--no-default-features") {
            flags.feature_selection.has_no_default_features = true;
        }
        if crate::tokens::arg_eq(arg, "--no-deps") {
            flags.has_no_deps = true;
        }
        if arg_is_target(arg) {
            flags.has_target_selection = true;
        }
        proof {
            lemma_some_arg_extend(dv, |a: Seq<char>| is_package_arg(a), i as int);
            lemma_some_arg_extend(dv, |a: Seq<char>| is_workspace_arg(a), i as int);
            lemma_some_arg_extend(dv, |a: Seq<char>| is_manifest_path_arg(a), i as int);
            lemma_some_arg_extend(dv, |a: Seq<char>| is_all_features_arg(a), i as int);
            lemma_some_arg_extend(dv, |a: Seq<char>| is_features_arg(a), i as int);
            lemma_some_arg_extend(dv, |a: Seq<char>| is_no_default_features_arg(a), i as int);
            lemma_some_arg_extend(dv, |a: Seq<char>| is_no_deps_arg(a), i as int);
            lemma_some_arg_extend(dv, |a: Seq<char>| is_target_arg(a), i as int);
        }
        i += 1;
    }
    proof {
        assert(dv.take(n as int) =~= dv);
    }
    flags
}

/// The stripped cargo-level segment: when an explicit narrow scope was
/// selected, every exact workspace token is removed; otherwise the segment
/// is unchanged.
pub open spec fn spec_strip_workspace(args: Seq<Seq<char>>, flags: DetectedFlags) -> Seq<
    Seq<char>,
> {
    if flags.scope.has_package || flags.scope.has_manifest_path {
        without_tok(args, "--workspace"@)
    } else {
        args
    }
}

/// Resolve the one contradiction case: an explicit narrow scope (`-p` or
/// `--manifest-path`) wins over an explicit broad scope, so every
/// `--workspace` token is dropped when either is present.
pub fn strip_workspace_if_contradictory(user_cargo_args: Vec<String>, flags: DetectedFlags) -> (r:
    Vec<String>)
    ensures
        r.deep_view() == spec_strip_workspace(user_cargo_args.deep_view(), flags),
{
    let ghost dv = user_cargo_args.deep_view();
    if !(flags.scope.has_package || flags.scope.has_manifest_path) {
        return user_cargo_args;
    }
    let mut kept: Vec<String> = Vec::new();
    let n = user_cargo_args.len();
    let mut i: usize = 0;
    proof {
        assert(kept.deep_view() =~= Seq::<Seq<char>>::empty());
        assert(dv.skip(0) =~= dv);
        assert(kept.deep_view() + without_tok(dv, "--workspace"@) =~= without_tok(
            dv,
            "--workspace"@,
        ));
    }
    while i < n
        invariant
            i <= n,
            n == user_cargo_args.len(),
            dv == user_cargo_args.deep_view(),
            without_tok(dv, "--workspace"@) == kept.deep_view() + without_tok(
                dv.skip(i as int),
                "--workspace"@,
            ),
        decreases n - i,
    {
        let ghost rest = dv.skip(i as int);
        proof {
            assert(rest[0] == dv[i as int]);
            assert(rest.skip(1) =~= dv.skip(i as int + 1));
        }
        let arg = &user_cargo_args[i];
        assert(arg@ == dv[i as int]);
        if !crate::tokens::arg_eq(arg, "--workspace") {
            let ghost old_kept = kept.deep_view();
            kept.push(arg.clone());
            proof {
                assert(kept.deep_view() =~= old_kept.push(dv[i as int]));
                assert(without_tok(rest, "--workspace"@) == seq![rest[0]] + without_tok(
                    rest.skip(1),
                    "--workspace"@,
                ));
                assert(old_kept.push(dv[i as int]) + without_tok(
                    dv.skip(i as int + 1),
                    "--workspace"@,
                ) =~= old_kept + without_tok(rest, "--workspace"@));
            }
        }
        i += 1;
    }
    proof {
        assert(dv.skip(n as int) =~= Seq::<Seq<char>>::empty());
        assert(without_tok(dv, "--workspace"@) =~= kept.deep_view());
    }
    kept
}

/// Detection is idempotent: scanning the same argument list a second time
/// yields the same flag record, since the record is a pure function of the
/// list.
pub proof fn lemma_detect_flags_idempotent(
    args: Seq<Seq<char>>,
    first: DetectedFlags,
    second: DetectedFlags,
)
    requires
        first == spec_detect_flags(args),
        second == spec_detect_flags(args),
    ensures
        first == second,
{
}

} // verus!
