//! Token vocabulary: which argument spellings select which cargo behavior,
//! plus small executable helpers for comparing tokens against them.

use vstd::prelude::*;

verus! {

/// The reserved token that separates cargo arguments from clippy arguments.
pub open spec fn sep_token() -> Seq<char> {
    "--"@
}

/// `p` is an initial segment of `s`.
pub open spec fn has_prefix(s: Seq<char>, p: Seq<char>) -> bool {
    p.len() <= s.len() && s.subrange(0, p.len() as int) == p
}

/// The token selects one or more packages (`-p`/`--package`, their joined
/// forms, or the short flag with an attached value).
pub open spec fn is_package_arg(a: Seq<char>) -> bool {
    ||| a == "-p"@
    ||| a == "--package"@
    ||| has_prefix(a, "--package="@)
    ||| (has_prefix(a, "-p"@) && a.len() > 2)
}

/// The token selects a manifest path (exact or `=`-joined).
pub open spec fn is_manifest_path_arg(a: Seq<char>) -> bool {
    a == "--manifest-path"@ || has_prefix(a, "--manifest-path="@)
}

/// The token selects the whole workspace.
pub open spec fn is_workspace_arg(a: Seq<char>) -> bool {
    a == "--workspace"@
}

/// The token disables lints on dependencies.
pub open spec fn is_no_deps_arg(a: Seq<char>) -> bool {
    a == "--no-deps"@
}

/// The token selects build targets (all targets, a target kind, or a
/// specific named target via the `=`-joined forms).
pub open spec fn is_target_arg(a: Seq<char>) -> bool {
    ||| a == "--all-targets"@
    ||| a == "--lib"@
    ||| a == "--bins"@
    ||| a == "--tests"@
    ||| a == "--benches"@
    ||| a == "--examples"@
    ||| a == "--targets"@
    ||| a == "--bin"@
    ||| a == "--test"@
    ||| a == "--bench"@
    ||| a == "--example"@
    ||| has_prefix(a, "--bin="@)
    ||| has_prefix(a, "--test="@)
    ||| has_prefix(a, "--bench="@)
    ||| has_prefix(a, "--example="@)
}

/// The token enables every feature.
pub open spec fn is_all_features_arg(a: Seq<char>) -> bool {
    a == "--all-features"@
}

/// The token supplies an explicit feature list (exact or `=`-joined).
pub open spec fn is_features_arg(a: Seq<char>) -> bool {
    a == "--features"@ || has_prefix(a, "--features="@)
}

/// The token disables the default features.
pub open spec fn is_no_default_features_arg(a: Seq<char>) -> bool {
    a == "--no-default-features"@
}

/// How many elements of `args` are exactly `tok`.
pub open spec fn count_tok(args: Seq<Seq<char>>, tok: Seq<char>) -> nat
    decreases args.len(),
{
    if args.len() == 0 {
        0
    } else {
        (if args[0] == tok {
            1nat
        } else {
            0nat
        }) + count_tok(args.skip(1), tok)
    }
}

/// `args` with every occurrence of `tok` removed, order otherwise kept.
pub open spec fn without_tok(args: Seq<Seq<char>>, tok: Seq<char>) -> Seq<Seq<char>>
    decreases args.len(),
{
    if args.len() == 0 {
        Seq::empty()
    } else if args[0] == tok {
        without_tok(args.skip(1), tok)
    } else {
        seq![args[0]] + without_tok(args.skip(1), tok)
    }
}

/// Occurrence counts add up across concatenation.
pub proof fn lemma_count_tok_concat(a: Seq<Seq<char>>, b: Seq<Seq<char>>, tok: Seq<char>)
    ensures
        count_tok(a + b, tok) == count_tok(a, tok) + count_tok(b, tok),
    decreases a.len(),
{
    if a.len() == 0 {
        assert(a + b =~= b);
    } else {
        assert((a + b).skip(1) =~= a.skip(1) + b);
        lemma_count_tok_concat(a.skip(1), b, tok);
    }
}

/// A one-element list holds `tok` once or not at all.
pub proof fn lemma_count_tok_singleton(x: Seq<char>, tok: Seq<char>)
    ensures
        count_tok(seq![x], tok) == (if x == tok {
            1nat
        } else {
            0nat
        }),
{
    assert(seq![x].skip(1) =~= Seq::<Seq<char>>::empty());
    assert(count_tok(Seq::<Seq<char>>::empty(), tok) == 0);
    assert(seq![x][0] == x);
}

/// A list that is either empty or a single element other than `tok`
/// holds no occurrence of `tok`.
pub proof fn lemma_count_opt_single(s: Seq<Seq<char>>, x: Seq<char>, tok: Seq<char>)
    requires
        s == seq![x] || s == Seq::<Seq<char>>::empty(),
        x != tok,
    ensures
        count_tok(s, tok) == 0,
{
    if s == seq![x] {
        lemma_count_tok_singleton(x, tok);
    }
}

/// Occurrence counts in a two-element list come from its two elements.
pub proof fn lemma_count_tok_pair(a: Seq<char>, b: Seq<char>, tok: Seq<char>)
    ensures
        count_tok(seq![a, b], tok) == count_tok(seq![a], tok) + count_tok(seq![b], tok),
{
    assert(seq![a, b] =~= seq![a] + seq![b]);
    lemma_count_tok_concat(seq![a], seq![b], tok);
}

/// Removing a token that never occurs changes nothing.
pub proof fn lemma_without_tok_absent(args: Seq<Seq<char>>, tok: Seq<char>)
    requires
        forall|i: int| 0 <= i < args.len() ==> args[i] != tok,
    ensures
        without_tok(args, tok) == args,
    decreases args.len(),
{
    if args.len() == 0 {
        assert(without_tok(args, tok) =~= args);
    } else {
        assert forall|i: int| 0 <= i < args.skip(1).len() implies args.skip(1)[i] != tok by {
            assert(args.skip(1)[i] == args[i + 1]);
        }
        lemma_without_tok_absent(args.skip(1), tok);
        assert(without_tok(args, tok) =~= args);
    }
}

/// Removing every occurrence of `tok` leaves none behind.
pub proof fn lemma_without_tok_count(args: Seq<Seq<char>>, tok: Seq<char>)
    ensures
        count_tok(without_tok(args, tok), tok) == 0,
    decreases args.len(),
{
    if args.len() == 0 {
    } else if args[0] == tok {
        lemma_without_tok_count(args.skip(1), tok);
    } else {
        lemma_without_tok_count(args.skip(1), tok);
        lemma_count_tok_concat(seq![args[0]], without_tok(args.skip(1), tok), tok);
        lemma_count_tok_singleton(args[0], tok);
    }
}

/// The four default tokens are pairwise distinct: their lengths differ.
pub proof fn lemma_default_tokens_distinct()
    ensures
        "--workspace"@ != "--all-targets"@,
        "--workspace"@ != "--no-deps"@,
        "--workspace"@ != "--all-features"@,
        "--all-targets"@ != "--no-deps"@,
        "--all-targets"@ != "--all-features"@,
        "--no-deps"@ != "--all-features"@,
{
    reveal_strlit("--workspace");
    reveal_strlit("--all-targets");
    reveal_strlit("--no-deps");
    reveal_strlit("--all-features");
    assert("--workspace"@.len() != "--all-targets"@.len());
    assert("--workspace"@.len() != "--no-deps"@.len());
    assert("--workspace"@.len() != "--all-features"@.len());
    assert("--all-targets"@.len() != "--no-deps"@.len());
    assert("--all-targets"@.len() != "--all-features"@.len());
    assert("--no-deps"@.len() != "--all-features"@.len());
}

/// Equality of a token and a literal spelling, decided on views.
pub fn str_eq(a: &str, b: &str) -> (r: bool)
    ensures
        r == (a@ == b@),
{
    let x = a.to_owned();
    let y = b.to_owned();
    x == y
}

/// Equality of an argument and a literal spelling.
pub fn arg_eq(a: &String, b: &str) -> (r: bool)
    ensures
        r == (a@ == b@),
{
    str_eq(a.as_str(), b)
}

/// Whether `p` is an initial segment of `s`, decided character by character.
pub fn str_has_prefix(s: &str, p: &str) -> (r: bool)
    ensures
        r == has_prefix(s@, p@),
{
    let n = p.unicode_len();
    let m = s.unicode_len();
    if n > m {
        return false;
    }
    let mut i: usize = 0;
    while i < n
        invariant
            i <= n,
            n == p@.len(),
            n <= m == s@.len(),
            forall|j: int| 0 <= j < i ==> s@[j] == p@[j],
        decreases n - i,
    {
        if s.get_char(i) != p.get_char(i) {
            assert(s@[i as int] != p@[i as int]);
            assert(!has_prefix(s@, p@)) by {
                if has_prefix(s@, p@) {
                    assert(s@.subrange(0, n as int)[i as int] == s@[i as int]);
                }
            }
            return false;
        }
        i += 1;
    }
    assert(s@.subrange(0, n as int) =~= p@);
    true
}

/// Whether `p` is an initial segment of the argument `a`.
pub fn arg_has_prefix(a: &String, p: &str) -> (r: bool)
    ensures
        r == has_prefix(a@, p@),
{
    str_has_prefix(a.as_str(), p)
}

/// Number of characters in the argument.
pub fn arg_len(a: &String) -> (r: usize)
    ensures
        r == a@.len(),
{
    a.as_str().unicode_len()
}

} // verus!
