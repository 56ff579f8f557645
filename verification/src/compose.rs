//! Planning an invocation from the subcommand and assembling the full
//! `cargo` argument sequence for it.

use vstd::prelude::*;

use crate::defaults::{build_cargo_clippy_args, built_args};
use crate::flags::{detect_flags, spec_detect_flags, spec_strip_workspace,
    strip_workspace_if_contradictory};
use crate::split::{split_args_on_double_dash, split_primary, split_passthrough};
use crate::tokens::sep_token;

verus! {

/// The implicit prefix of the fix mode: apply fixes even in a dirty or
/// staged working tree.
pub open spec fn fix_prefix() -> Seq<Seq<char>> {
    seq!["--fix"@, "--allow-dirty"@, "--allow-staged"@]
}

/// What to do for a given subcommand.
pub enum SubcommandPlan {
    /// Run the analysis with this implicit prefix argument list.
    Invoke { prefix: Vec<String> },
    /// Print the usage text and succeed.
    ShowHelp,
    /// The subcommand is not recognized: print the usage text and fail.
    Reject,
}

/// Decide what a subcommand asks for: `lint` runs with no prefix, `fixit`
/// runs with the fix-mode prefix, the help spellings show usage, and
/// anything else is rejected.
pub fn plan_subcommand(subcommand: &String) -> (r: SubcommandPlan)
    ensures
        subcommand@ == "lint"@ ==> (r matches SubcommandPlan::Invoke { prefix } && prefix.deep_view()
            == Seq::<Seq<char>>::empty()),
        subcommand@ == "fixit"@ ==> (r matches SubcommandPlan::Invoke { prefix }
            && prefix.deep_view() == fix_prefix()),
        subcommand@ == "help"@ || subcommand@ == "-h"@ || subcommand@ == "--help"@ ==> r
            is ShowHelp,
        subcommand@ != "lint"@ && subcommand@ != "fixit"@ && subcommand@ != "help"@ && subcommand@
            != "-h"@ && subcommand@ != "--help"@ ==> r is Reject,
{
    proof {
        reveal_strlit("lint");
        reveal_strlit("fixit");
        reveal_strlit("help");
        reveal_strlit("-h");
        reveal_strlit("--help");
        assert("lint"@.len() != "fixit"@.len());
        assert("lint"@.len() != "-h"@.len());
        assert("lint"@.len() == "help"@.len());
        assert("lint"@[0] != "help"@[0]);
        assert("lint"@[0] != "--help"@[0]);
        assert("fixit"@.len() != "help"@.len());
        assert("fixit"@.len() != "-h"@.len());
        assert("fixit"@.len() != "--help"@.len());
        assert("help"@[0] != "-h"@[0]);
        assert("help"@[0] != "--help"@[0]);
        assert("-h"@.len() != "--help"@.len());
    }
    if crate::tokens::arg_eq(subcommand, "lint") {
        SubcommandPlan::Invoke { prefix: Vec::new() }
    } else if crate::tokens::arg_eq(subcommand, "fixit") {
        let mut prefix: Vec<String> = Vec::new();
        prefix.push("--fix".to_owned());
        prefix.push("--allow-dirty".to_owned());
        prefix.push("--allow-staged".to_owned());
        proof {
            assert(prefix.deep_view() =~= fix_prefix());
        }
        SubcommandPlan::Invoke { prefix }
    } else if crate::tokens::arg_eq(subcommand, "help") || crate::tokens::arg_eq(subcommand, "-h")
        || crate::tokens::arg_eq(subcommand, "--help") {
        SubcommandPlan::ShowHelp
    } else {
        SubcommandPlan::Reject
    }
}

/// The full argument sequence handed to `cargo`: the analysis subcommand,
/// the built cargo-level list, the literal separator, the passthrough
/// segment unchanged, and the two strict-lint-level flags last.
pub open spec fn composed_args(
    prefix: Seq<Seq<char>>,
    argv: Seq<Seq<char>>,
    is_workspace_root: bool,
) -> Seq<Seq<char>> {
    let primary = split_primary(argv);
    let flags = spec_detect_flags(primary);
    let stripped = spec_strip_workspace(primary, flags);
    seq!["clippy"@] + built_args(prefix, stripped, flags, is_workspace_root) + seq![sep_token()]
        + split_passthrough(argv) + seq!["-Dclippy::all"@, "-Dclippy::pedantic"@]
}

/// Build the complete argument sequence for the `cargo` child process:
/// split the user arguments at the separator, detect the caller's
/// decisions, resolve the scope contradiction, inject the missing
/// defaults, and frame the passthrough segment with the separator and the
/// strict-lint baseline.
pub fn compose_command_args(prefix: Vec<String>, args: Vec<String>, is_workspace_root: bool) -> (r:
    Vec<String>)
    ensures
        r.deep_view() == composed_args(prefix.deep_view(), args.deep_view(), is_workspace_root),
{
    let ghost prefix_dv = prefix.deep_view();
    let ghost argv_dv = args.deep_view();
    let (user_cargo_args, user_clippy_args) = split_args_on_double_dash(args);
    let flags = detect_flags(&user_cargo_args);
    let user_cargo_args = strip_workspace_if_contradictory(user_cargo_args, flags);
    let built = build_cargo_clippy_args(prefix, user_cargo_args, flags, is_workspace_root);
    let ghost built_dv = built.deep_view();
    let mut out: Vec<String> = Vec::new();
    out.push("clippy".to_owned());
    let mut built = built;
    out.append(&mut built);
    let ghost after_built = out.deep_view();
    proof {
        assert(after_built =~= seq!["clippy"@] + built_dv);
    }
    out.push("--".to_owned());
    let mut pass = user_clippy_args;
    let ghost pass_dv = pass.deep_view();
    out.append(&mut pass);
    let ghost after_pass = out.deep_view();
    proof {
        assert(after_pass =~= after_built + seq![sep_token()] + pass_dv);
    }
    out.push("-Dclippy::all".to_owned());
    out.push("-Dclippy::pedantic".to_owned());
    proof {
        assert(out.deep_view() =~= after_pass + seq!["-Dclippy::all"@, "-Dclippy::pedantic"@]);
        assert(out.deep_view() =~= composed_args(prefix_dv, argv_dv, is_workspace_root));
    }
    out
}

/// Fix mode keeps its prefix first: invoked with the `fixit` prefix and no
/// further arguments, the composed sequence starts with the analysis
/// subcommand followed immediately by the three fix-mode flags, in their
/// fixed order, before any defaults.
pub proof fn lemma_fixit_prefix_comes_first(is_workspace_root: bool)
    ensures
        composed_args(fix_prefix(), Seq::<Seq<char>>::empty(), is_workspace_root).take(4)
            == seq!["clippy"@] + fix_prefix(),
{
    let empty = Seq::<Seq<char>>::empty();
    let composed = composed_args(fix_prefix(), empty, is_workspace_root);
    assert(split_primary(empty) =~= empty);
    assert(split_passthrough(empty) =~= empty);
    let flags = spec_detect_flags(empty);
    let built = built_args(fix_prefix(), spec_strip_workspace(empty, flags), flags,
        is_workspace_root);
    assert(built.take(3) =~= fix_prefix());
    assert(composed.take(4) =~= seq!["clippy"@] + fix_prefix());
}

} // verus!
