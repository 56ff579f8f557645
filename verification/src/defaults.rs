//! Building the final cargo-level argument list: prefix, missing defaults,
//! then the user's own (already stripped) arguments.

use vstd::prelude::*;

use crate::flags::{spec_detect_flags, spec_strip_workspace, DetectedFlags};
use crate::tokens::{
    count_tok, is_features_arg, is_no_deps_arg, is_target_arg, lemma_count_opt_single,
    lemma_count_tok_concat, lemma_count_tok_singleton, lemma_without_tok_count, without_tok,
};

verus! {

/// The workspace default: appended only at the workspace root and only
/// when no scope was selected explicitly.
pub open spec fn workspace_default(flags: DetectedFlags, is_workspace_root: bool) -> Seq<
    Seq<char>,
> {
    if is_workspace_root && !flags.scope.has_package && !flags.scope.has_manifest_path
        && !flags.scope.has_workspace {
        seq!["--workspace"@]
    } else {
        Seq::empty()
    }
}

/// The all-targets default: appended unless targets were selected.
pub open spec fn target_default(flags: DetectedFlags) -> Seq<Seq<char>> {
    if !flags.has_target_selection {
        seq!["--all-targets"@]
    } else {
        Seq::empty()
    }
}

/// The no-dependency-lints default: appended unless already present.
pub open spec fn no_deps_default(flags: DetectedFlags) -> Seq<Seq<char>> {
    if !flags.has_no_deps {
        seq!["--no-deps"@]
    } else {
        Seq::empty()
    }
}

/// The all-features default: appended unless a feature mode was selected.
pub open spec fn features_default(flags: DetectedFlags) -> Seq<Seq<char>> {
    if !flags.feature_selection.has_all_features && !flags.feature_selection.has_features
        && !flags.feature_selection.has_no_default_features {
        seq!["--all-features"@]
    } else {
        Seq::empty()
    }
}

/// The built cargo-level argument list: the unconditional prefix, the
/// defaults that the flag record still calls for, then the user's own
/// arguments unchanged.
pub open spec fn built_args(
    cargo_args: Seq<Seq<char>>,
    user_cargo_args: Seq<Seq<char>>,
    flags: DetectedFlags,
    is_workspace_root: bool,
) -> Seq<Seq<char>> {
    cargo_args + workspace_default(flags, is_workspace_root) + target_default(flags)
        + no_deps_default(flags) + features_default(flags) + user_cargo_args
}

/// Assemble the argument list handed to `cargo clippy`: the caller's
/// prefix, then each default the user has not decided already, then the
/// user's own cargo-level arguments.
pub fn build_cargo_clippy_args(
    cargo_args: Vec<String>,
    user_cargo_args: Vec<String>,
    flags: DetectedFlags,
    is_workspace_root: bool,
) -> (r: Vec<String>)
    ensures
        r.deep_view() == built_args(
            cargo_args.deep_view(),
            user_cargo_args.deep_view(),
            flags,
            is_workspace_root,
        ),
{
    let ghost cargo_dv = cargo_args.deep_view();
    let ghost user_dv = user_cargo_args.deep_view();
    let mut out = cargo_args;
    if is_workspace_root && !flags.scope.has_package && !flags.scope.has_manifest_path
        && !flags.scope.has_workspace {
        out.push("--workspace".to_owned());
    }
    proof {
        assert(out.deep_view() =~= cargo_dv + workspace_default(flags, is_workspace_root));
    }
    let ghost after_ws = out.deep_view();
    if !flags.has_target_selection {
        out.push("--all-targets".to_owned());
    }
    proof {
        assert(out.deep_view() =~= after_ws + target_default(flags));
    }
    let ghost after_target = out.deep_view();
    if !flags.has_no_deps {
        out.push("--no-deps".to_owned());
    }
    proof {
        assert(out.deep_view() =~= after_target + no_deps_default(flags));
    }
    let ghost after_no_deps = out.deep_view();
    if !flags.feature_selection.has_all_features && !flags.feature_selection.has_features
        && !flags.feature_selection.has_no_default_features {
        out.push("--all-features".to_owned());
    }
    proof {
        assert(out.deep_view() =~= after_no_deps + features_default(flags));
    }
    let ghost after_features = out.deep_view();
    let mut user = user_cargo_args;
    out.append(&mut user);
    proof {
        assert(out.deep_view() =~= after_features + user_dv);
        assert(out.deep_view() =~= built_args(cargo_dv, user_dv, flags, is_workspace_root));
    }
    out
}

/// An explicit narrow scope wins over the broad one: when the primary list
/// holds a package-scope token and an exact workspace token, contradiction
/// resolution removes every workspace token, and the built output holds no
/// occurrence of it (provided the caller's prefix holds none).
pub proof fn lemma_narrow_scope_strips_workspace(
    cargo_args: Seq<Seq<char>>,
    args: Seq<Seq<char>>,
    is_workspace_root: bool,
)
    requires
        spec_detect_flags(args).scope.has_package,
        spec_detect_flags(args).scope.has_workspace,
        count_tok(cargo_args, "--workspace"@) == 0,
    ensures
        count_tok(spec_strip_workspace(args, spec_detect_flags(args)), "--workspace"@) == 0,
        count_tok(
            built_args(
                cargo_args,
                spec_strip_workspace(args, spec_detect_flags(args)),
                spec_detect_flags(args),
                is_workspace_root,
            ),
            "--workspace"@,
        ) == 0,
{
    let flags = spec_detect_flags(args);
    let stripped = spec_strip_workspace(args, flags);
    let ws = "--workspace"@;
    assert(stripped == without_tok(args, ws));
    lemma_without_tok_count(args, ws);
    lemma_count_built(cargo_args, stripped, flags, is_workspace_root, ws);
    assert(workspace_default(flags, is_workspace_root) =~= Seq::<Seq<char>>::empty());
    reveal_strlit("--workspace");
    reveal_strlit("--all-targets");
    reveal_strlit("--no-deps");
    reveal_strlit("--all-features");
    crate::tokens::lemma_default_tokens_distinct();
    lemma_count_opt_single(target_default(flags), "--all-targets"@, ws);
    lemma_count_opt_single(no_deps_default(flags), "--no-deps"@, ws);
    lemma_count_opt_single(features_default(flags), "--all-features"@, ws);
}

/// The occurrence count of any token in the built output is the sum of its
/// counts in the prefix, each default segment, and the user segment.
pub proof fn lemma_count_built(
    cargo_args: Seq<Seq<char>>,
    user_cargo_args: Seq<Seq<char>>,
    flags: DetectedFlags,
    is_workspace_root: bool,
    tok: Seq<char>,
)
    ensures
        count_tok(built_args(cargo_args, user_cargo_args, flags, is_workspace_root), tok)
            == count_tok(cargo_args, tok) + count_tok(workspace_default(flags, is_workspace_root), tok)
            + count_tok(target_default(flags), tok) + count_tok(no_deps_default(flags), tok)
            + count_tok(features_default(flags), tok) + count_tok(user_cargo_args, tok),
{
    let wsd = workspace_default(flags, is_workspace_root);
    let td = target_default(flags);
    let ndd = no_deps_default(flags);
    let fd = features_default(flags);
    lemma_count_tok_concat(cargo_args, wsd, tok);
    lemma_count_tok_concat(cargo_args + wsd, td, tok);
    lemma_count_tok_concat(cargo_args + wsd + td, ndd, tok);
    lemma_count_tok_concat(cargo_args + wsd + td + ndd, fd, tok);
    lemma_count_tok_concat(cargo_args + wsd + td + ndd + fd, user_cargo_args, tok);
}

/// At the workspace root, with no user arguments and no prefix, the built
/// output holds exactly one each of the workspace, all-targets,
/// no-dependency-lints, and all-features defaults.
pub proof fn lemma_defaults_at_workspace_root()
    ensures
        ({
            let empty = Seq::<Seq<char>>::empty();
            let flags = spec_detect_flags(empty);
            let built = built_args(empty, empty, flags, true);
            &&& count_tok(built, "--workspace"@) == 1
            &&& count_tok(built, "--all-targets"@) == 1
            &&& count_tok(built, "--no-deps"@) == 1
            &&& count_tok(built, "--all-features"@) == 1
        }),
{
    let empty = Seq::<Seq<char>>::empty();
    let flags = spec_detect_flags(empty);
    reveal_strlit("--workspace");
    reveal_strlit("--all-targets");
    reveal_strlit("--no-deps");
    reveal_strlit("--all-features");
    crate::tokens::lemma_default_tokens_distinct();
    crate::flags::lemma_detect_empty();
    lemma_default_counts(empty, empty, flags, true, "--workspace"@);
    lemma_default_counts(empty, empty, flags, true, "--all-targets"@);
    lemma_default_counts(empty, empty, flags, true, "--no-deps"@);
    lemma_default_counts(empty, empty, flags, true, "--all-features"@);
}

/// Away from the workspace root, with no user arguments, the built output
/// holds no workspace flag but still one each of the other three defaults.
pub proof fn lemma_defaults_outside_workspace_root()
    ensures
        ({
            let empty = Seq::<Seq<char>>::empty();
            let flags = spec_detect_flags(empty);
            let built = built_args(empty, empty, flags, false);
            &&& count_tok(built, "--workspace"@) == 0
            &&& count_tok(built, "--all-targets"@) == 1
            &&& count_tok(built, "--no-deps"@) == 1
            &&& count_tok(built, "--all-features"@) == 1
        }),
{
    let empty = Seq::<Seq<char>>::empty();
    let flags = spec_detect_flags(empty);
    reveal_strlit("--workspace");
    reveal_strlit("--all-targets");
    reveal_strlit("--no-deps");
    reveal_strlit("--all-features");
    crate::tokens::lemma_default_tokens_distinct();
    crate::flags::lemma_detect_empty();
    lemma_default_counts(empty, empty, flags, false, "--workspace"@);
    lemma_default_counts(empty, empty, flags, false, "--all-targets"@);
    lemma_default_counts(empty, empty, flags, false, "--no-deps"@);
    lemma_default_counts(empty, empty, flags, false, "--all-features"@);
}

/// Helper: the count of one of the four default tokens in the built
/// output, as the sum over its segments, with each default segment's count
/// settled by whether the segment is that single token.
proof fn lemma_default_counts(
    cargo_args: Seq<Seq<char>>,
    user_cargo_args: Seq<Seq<char>>,
    flags: DetectedFlags,
    is_workspace_root: bool,
    tok: Seq<char>,
)
    ensures
        count_tok(built_args(cargo_args, user_cargo_args, flags, is_workspace_root), tok)
            == count_tok(cargo_args, tok) + count_tok(workspace_default(flags, is_workspace_root), tok)
            + count_tok(target_default(flags), tok) + count_tok(no_deps_default(flags), tok)
            + count_tok(features_default(flags), tok) + count_tok(user_cargo_args, tok),
        count_tok(workspace_default(flags, is_workspace_root), tok) == (
        if workspace_default(flags, is_workspace_root) == seq!["--workspace"@] && "--workspace"@
            == tok {
            1nat
        } else {
            0nat
        }),
        count_tok(target_default(flags), tok) == (
        if target_default(flags) == seq!["--all-targets"@] && "--all-targets"@ == tok {
            1nat
        } else {
            0nat
        }),
        count_tok(no_deps_default(flags), tok) == (
        if no_deps_default(flags) == seq!["--no-deps"@] && "--no-deps"@ == tok {
            1nat
        } else {
            0nat
        }),
        count_tok(features_default(flags), tok) == (
        if features_default(flags) == seq!["--all-features"@] && "--all-features"@ == tok {
            1nat
        } else {
            0nat
        }),
{
    lemma_count_built(cargo_args, user_cargo_args, flags, is_workspace_root, tok);
    lemma_count_tok_singleton("--workspace"@, tok);
    lemma_count_tok_singleton("--all-targets"@, tok);
    lemma_count_tok_singleton("--no-deps"@, tok);
    lemma_count_tok_singleton("--all-features"@, tok);
}

/// A user-supplied `--no-deps` is respected, not duplicated: the built
/// output holds exactly one occurrence of it.
pub proof fn lemma_no_deps_not_duplicated(is_workspace_root: bool)
    ensures
        ({
            let args = seq!["--no-deps"@];
            let flags = spec_detect_flags(args);
            let built = built_args(
                Seq::<Seq<char>>::empty(),
                spec_strip_workspace(args, flags),
                flags,
                is_workspace_root,
            );
            count_tok(built, "--no-deps"@) == 1
        }),
{
    let args = seq!["--no-deps"@];
    let flags = spec_detect_flags(args);
    let stripped = spec_strip_workspace(args, flags);
    let nd = "--no-deps"@;
    reveal_strlit("--workspace");
    reveal_strlit("--all-targets");
    reveal_strlit("--no-deps");
    reveal_strlit("--all-features");
    crate::tokens::lemma_default_tokens_distinct();
    crate::flags::lemma_detect_singleton(nd);
    assert(is_no_deps_arg(nd));
    assert(flags.has_no_deps);
    assert(no_deps_default(flags) =~= Seq::<Seq<char>>::empty());
    assert(count_tok(stripped, nd) == 1) by {
        lemma_count_tok_singleton(nd, nd);
        if flags.scope.has_package || flags.scope.has_manifest_path {
            assert(forall|i: int| 0 <= i < args.len() ==> args[i] != "--workspace"@);
            crate::tokens::lemma_without_tok_absent(args, "--workspace"@);
        }
    }
    lemma_default_counts(Seq::<Seq<char>>::empty(), stripped, flags, is_workspace_root, nd);
}

/// An explicit target selection suppresses the all-targets default: with
/// user argument `--lib` the built output holds no `--all-targets`.
pub proof fn lemma_target_selection_suppresses_all_targets(is_workspace_root: bool)
    ensures
        ({
            let args = seq!["--lib"@];
            let flags = spec_detect_flags(args);
            let built = built_args(
                Seq::<Seq<char>>::empty(),
                spec_strip_workspace(args, flags),
                flags,
                is_workspace_root,
            );
            count_tok(built, "--all-targets"@) == 0
        }),
{
    let args = seq!["--lib"@];
    let flags = spec_detect_flags(args);
    let stripped = spec_strip_workspace(args, flags);
    let at = "--all-targets"@;
    reveal_strlit("--workspace");
    reveal_strlit("--all-targets");
    reveal_strlit("--no-deps");
    reveal_strlit("--all-features");
    crate::tokens::lemma_default_tokens_distinct();
    reveal_strlit("--lib");
    assert("--lib"@.len() != "--all-targets"@.len());
    assert("--lib"@.len() != "--workspace"@.len());
    crate::flags::lemma_detect_singleton("--lib"@);
    assert(is_target_arg("--lib"@));
    assert(flags.has_target_selection);
    assert(target_default(flags) =~= Seq::<Seq<char>>::empty());
    assert(count_tok(stripped, at) == 0) by {
        lemma_count_tok_singleton("--lib"@, at);
        if flags.scope.has_package || flags.scope.has_manifest_path {
            assert(forall|i: int| 0 <= i < args.len() ==> args[i] != "--workspace"@);
            crate::tokens::lemma_without_tok_absent(args, "--workspace"@);
        }
    }
    lemma_default_counts(Seq::<Seq<char>>::empty(), stripped, flags, is_workspace_root, at);
}

/// An explicit feature list suppresses the all-features default: with user
/// arguments `--features x` the built output holds no `--all-features`.
pub proof fn lemma_feature_selection_suppresses_all_features(is_workspace_root: bool)
    ensures
        ({
            let args = seq!["--features"@, "x"@];
            let flags = spec_detect_flags(args);
            let built = built_args(
                Seq::<Seq<char>>::empty(),
                spec_strip_workspace(args, flags),
                flags,
                is_workspace_root,
            );
            count_tok(built, "--all-features"@) == 0
        }),
{
    let args = seq!["--features"@, "x"@];
    let flags = spec_detect_flags(args);
    let stripped = spec_strip_workspace(args, flags);
    let af = "--all-features"@;
    reveal_strlit("--workspace");
    reveal_strlit("--all-targets");
    reveal_strlit("--no-deps");
    reveal_strlit("--all-features");
    crate::tokens::lemma_default_tokens_distinct();
    reveal_strlit("--features");
    reveal_strlit("x");
    assert("--features"@.len() != "--all-features"@.len());
    assert("--features"@.len() != "--workspace"@.len());
    assert("x"@.len() != "--all-features"@.len());
    assert("x"@.len() != "--workspace"@.len());
    crate::flags::lemma_detect_pair("--features"@, "x"@);
    assert(is_features_arg("--features"@));
    assert(flags.feature_selection.has_features);
    assert(features_default(flags) =~= Seq::<Seq<char>>::empty());
    assert(count_tok(stripped, af) == 0) by {
        crate::tokens::lemma_count_tok_pair("--features"@, "x"@, af);
        lemma_count_tok_singleton("--features"@, af);
        lemma_count_tok_singleton("x"@, af);
        if flags.scope.has_package || flags.scope.has_manifest_path {
            assert(forall|i: int| 0 <= i < args.len() ==> args[i] != "--workspace"@);
            crate::tokens::lemma_without_tok_absent(args, "--workspace"@);
        }
    }
    lemma_default_counts(Seq::<Seq<char>>::empty(), stripped, flags, is_workspace_root, af);
}

} // verus!
