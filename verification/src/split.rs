//! Splitting the incoming argument list at the `--` separator into the
//! cargo-level segment and the clippy-level passthrough segment.

use vstd::prelude::*;

use crate::tokens::sep_token;

verus! {

/// The tokens before the first separator, in order; the whole list when no
/// separator occurs.
pub open spec fn split_primary(args: Seq<Seq<char>>) -> Seq<Seq<char>>
    decreases args.len(),
{
    if args.len() == 0 {
        Seq::empty()
    } else if args[0] == sep_token() {
        Seq::empty()
    } else {
        seq![args[0]] + split_primary(args.skip(1))
    }
}

/// The tokens after the first separator, in order; empty when no separator
/// occurs.  Later repetitions of the separator are ordinary tokens.
pub open spec fn split_passthrough(args: Seq<Seq<char>>) -> Seq<Seq<char>>
    decreases args.len(),
{
    if args.len() == 0 {
        Seq::empty()
    } else if args[0] == sep_token() {
        args.skip(1)
    } else {
        split_passthrough(args.skip(1))
    }
}

/// Split CLI arguments into cargo arguments and clippy arguments.
///
/// Cargo accepts extra arguments for the underlying tool after a `--`
/// separator.  The split is preserved so cargo-level flags can be injected
/// without interfering with user-provided clippy flags.
pub fn split_args_on_double_dash(args: Vec<String>) -> (r: (Vec<String>, Vec<String>))
    ensures
        r.0.deep_view() == split_primary(args.deep_view()),
        r.1.deep_view() == split_passthrough(args.deep_view()),
{
    let ghost dv = args.deep_view();
    let mut cargo_args: Vec<String> = Vec::new();
    let mut clippy_args: Vec<String> = Vec::new();
    let mut seen_double_dash = false;
    let n = args.len();
    let mut i: usize = 0;
    proof {
        assert(clippy_args.deep_view() =~= Seq::<Seq<char>>::empty());
        assert(dv.skip(0) =~= dv);
        assert(cargo_args.deep_view() + split_primary(dv) =~= split_primary(dv));
    }
    while i < n
        invariant
            i <= n,
            n == args.len(),
            dv == args.deep_view(),
            !seen_double_dash ==> {
                &&& clippy_args.deep_view() == Seq::<Seq<char>>::empty()
                &&& split_primary(dv) == cargo_args.deep_view() + split_primary(dv.skip(i as int))
                &&& split_passthrough(dv) == split_passthrough(dv.skip(i as int))
            },
            seen_double_dash ==> {
                &&& split_primary(dv) == cargo_args.deep_view()
                &&& split_passthrough(dv) == clippy_args.deep_view() + dv.skip(i as int)
            },
        decreases n - i,
    {
        let ghost rest = dv.skip(i as int);
        proof {
            assert(rest[0] == dv[i as int]);
            assert(rest.skip(1) =~= dv.skip(i as int + 1));
        }
        let arg = &args[i];
        assert(arg@ == dv[i as int]);
        if !seen_double_dash && crate::tokens::arg_eq(arg, "--") {
            seen_double_dash = true;
            proof {
                assert(split_primary(rest) =~= Seq::<Seq<char>>::empty());
                assert(split_primary(dv) =~= cargo_args.deep_view());
                assert(split_passthrough(rest) == rest.skip(1));
                assert(split_passthrough(dv) =~= clippy_args.deep_view() + dv.skip(
                    i as int + 1,
                ));
            }
        } else if seen_double_dash {
            let ghost old_clippy = clippy_args.deep_view();
            clippy_args.push(arg.clone());
            proof {
                assert(clippy_args.deep_view() =~= old_clippy.push(dv[i as int]));
                assert(rest =~= seq![rest[0]] + rest.skip(1));
                assert(old_clippy.push(dv[i as int]) + dv.skip(i as int + 1) =~= old_clippy + rest);
            }
        } else {
            let ghost old_cargo = cargo_args.deep_view();
            cargo_args.push(arg.clone());
            proof {
                assert(cargo_args.deep_view() =~= old_cargo.push(dv[i as int]));
                assert(split_primary(rest) == seq![rest[0]] + split_primary(rest.skip(1)));
                assert(old_cargo.push(dv[i as int]) + split_primary(dv.skip(i as int + 1)) =~= old_cargo
                    + split_primary(rest));
            }
        }
        i += 1;
    }
    proof {
        assert(dv.skip(n as int) =~= Seq::<Seq<char>>::empty());
        if !seen_double_dash {
            assert(split_primary(Seq::<Seq<char>>::empty()) =~= Seq::<Seq<char>>::empty());
            assert(split_primary(dv) =~= cargo_args.deep_view());
            assert(split_passthrough(Seq::<Seq<char>>::empty()) =~= Seq::<Seq<char>>::empty());
            assert(split_passthrough(dv) =~= clippy_args.deep_view());
        } else {
            assert(split_passthrough(dv) =~= clippy_args.deep_view());
        }
    }
    (cargo_args, clippy_args)
}

/// A list with no separator token splits into itself and an empty
/// passthrough segment.
pub proof fn lemma_split_no_separator(args: Seq<Seq<char>>)
    requires
        forall|i: int| 0 <= i < args.len() ==> args[i] != sep_token(),
    ensures
        split_primary(args) == args,
        split_passthrough(args) == Seq::<Seq<char>>::empty(),
    decreases args.len(),
{
    if args.len() == 0 {
        assert(split_primary(args) =~= args);
    } else {
        assert(args[0] != sep_token());
        assert forall|i: int| 0 <= i < args.skip(1).len() implies args.skip(1)[i]
            != sep_token() by {
            assert(args.skip(1)[i] == args[i + 1]);
        }
        lemma_split_no_separator(args.skip(1));
        assert(split_primary(args) =~= args);
    }
}

/// A list with exactly one separator token, at position `k`, splits into
/// the tokens before `k` and the tokens after `k`, each in order, with the
/// separator itself discarded.
pub proof fn lemma_split_single_separator(args: Seq<Seq<char>>, k: int)
    requires
        0 <= k < args.len(),
        args[k] == sep_token(),
        forall|i: int| 0 <= i < args.len() && i != k ==> args[i] != sep_token(),
    ensures
        split_primary(args) == args.take(k),
        split_passthrough(args) == args.skip(k + 1),
    decreases args.len(),
{
    if k == 0 {
        assert(split_primary(args) =~= args.take(0));
    } else {
        assert(args[0] != sep_token());
        assert(args.skip(1)[k - 1] == args[k]);
        assert forall|i: int| 0 <= i < args.skip(1).len() && i != k - 1 implies args.skip(1)[i]
            != sep_token() by {
            assert(args.skip(1)[i] == args[i + 1]);
        }
        lemma_split_single_separator(args.skip(1), k - 1);
        assert(split_primary(args) == seq![args[0]] + args.skip(1).take(k - 1));
        assert(seq![args[0]] + args.skip(1).take(k - 1) =~= args.take(k));
        assert(args.skip(1).skip(k) =~= args.skip(k + 1));
    }
}

} // verus!
