//! Synthesis of the argument vector handed to the history-filtering engine.
//!
//! The synthesizer performs no reordering and no deduplication: the raw
//! filter arguments appear verbatim, in the order given, between the
//! engine's own tokens and a fixed trailer that restricts the rewrite to
//! the output branch and forces re-execution.

use vstd::prelude::*;

verus! {

/// The full engine invocation: engine tokens first, the raw arguments
/// verbatim, then the branch restriction and the force flag.
pub open spec fn filter_arg_vec_spec(args: Seq<Seq<char>>, output_branch: Seq<char>) -> Seq<
    Seq<char>,
> {
    seq!["git"@, "filter-repo"@] + args + seq!["--refs"@, output_branch, "--force"@]
}

/// Builds the engine invocation for one filter pass.
pub fn generate_filter_arg_vec<'a>(args: &'a Vec<String>, output_branch: &'a str) -> (r: Vec<
    &'a str,
>)
    ensures
        r.deep_view() == filter_arg_vec_spec(args.deep_view(), output_branch@),
{
    let mut arg_vec: Vec<&str> = Vec::new();
    arg_vec.push("git");
    arg_vec.push("filter-repo");
    proof {
        assert(arg_vec.deep_view() =~~= seq!["git"@, "filter-repo"@] + args.deep_view().subrange(
            0,
            0,
        ));
    }
    let mut i: usize = 0;
    while i < args.len()
        invariant
            i <= args.len(),
            arg_vec.deep_view() == seq!["git"@, "filter-repo"@] + args.deep_view().subrange(
                0,
                i as int,
            ),
        decreases args.len() - i,
    {
        let ghost prefix = arg_vec.deep_view();
        let a: &String = &args[i];
        arg_vec.push(a.as_str());
        proof {
            assert(arg_vec.deep_view() =~~= prefix.push(args.deep_view()[i as int]));
            assert(arg_vec.deep_view() =~~= seq!["git"@, "filter-repo"@]
                + args.deep_view().subrange(0, i as int + 1));
        }
        i += 1;
    }
    let ghost mid = arg_vec.deep_view();
    arg_vec.push("--refs");
    arg_vec.push(output_branch);
    arg_vec.push("--force");
    proof {
        assert(args.deep_view().subrange(0, args@.len() as int) =~~= args.deep_view());
        assert(arg_vec.deep_view() =~~= mid + seq!["--refs"@, output_branch@, "--force"@]);
        assert(arg_vec.deep_view() =~~= filter_arg_vec_spec(args.deep_view(), output_branch@));
    }
    arg_vec
}

/// The synthesized vector always has the engine tokens first, keeps the
/// given arguments in their given positions, and ends with the branch
/// restriction, the branch name, and the force flag, in that order.
pub proof fn lemma_filter_arg_vec_shape(args: Seq<Seq<char>>, output_branch: Seq<char>)
    ensures
        filter_arg_vec_spec(args, output_branch).len() == args.len() + 5,
        filter_arg_vec_spec(args, output_branch)[0] == "git"@,
        filter_arg_vec_spec(args, output_branch)[1] == "filter-repo"@,
        forall|i: int|
            0 <= i < args.len() ==> filter_arg_vec_spec(args, output_branch)[2 + i] == args[i],
        filter_arg_vec_spec(args, output_branch)[args.len() as int + 2] == "--refs"@,
        filter_arg_vec_spec(args, output_branch)[args.len() as int + 3] == output_branch,
        filter_arg_vec_spec(args, output_branch)[args.len() as int + 4] == "--force"@,
{
}

} // verus!
