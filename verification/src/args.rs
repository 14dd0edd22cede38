//! Argument building: one ordered argument list per input file, with a fixed
//! flag order that matches the external converter's accepted grammar.

use vstd::prelude::*;
use crate::options::ConversionOptions;
use crate::options::spec_compression_token;
use crate::options::spec_crop_token;
use crate::options::spec_bool_token;
use crate::options::bool_token;

verus! {

/// The full argument list of one invocation: the `convert` subcommand, the
/// three valued flags in fixed order, the two optional flags, then the input
/// file and the shared output directory as trailing positionals.
pub open spec fn spec_invocation(
    options: ConversionOptions,
    input: Seq<char>,
    output_dir: Seq<char>,
) -> Seq<Seq<char>> {
    seq![
        "convert"@,
        "--embed-raw"@,
        spec_bool_token(options.embed_raw),
        "--compression"@,
        spec_compression_token(options.compression),
        "--crop"@,
        spec_crop_token(options.crop),
    ] + (if options.overwrite {
        seq!["--override"@]
    } else {
        Seq::<Seq<char>>::empty()
    }) + (if options.recursive {
        seq!["--recursive"@]
    } else {
        Seq::<Seq<char>>::empty()
    }) + seq![input, output_dir]
}

/// Number of tokens in one invocation for the given options.
pub open spec fn spec_invocation_len(options: ConversionOptions) -> int {
    9 + (if options.overwrite { 1int } else { 0int }) + (if options.recursive {
        1int
    } else {
        0int
    })
}

/// Index of the input-path token: second to last, just before the output
/// directory.
pub open spec fn spec_input_index(options: ConversionOptions) -> int {
    spec_invocation_len(options) - 2
}

/// Build the argument list for a single input file.
pub fn build_invocation(
    options: &ConversionOptions,
    input: &String,
    output_dir: &String,
) -> (r: Vec<String>)
    ensures
        r.deep_view() == spec_invocation(*options, input@, output_dir@),
{
    let mut r: Vec<String> = Vec::new();
    r.push("convert".to_owned());
    r.push("--embed-raw".to_owned());
    r.push(bool_token(options.embed_raw));
    r.push("--compression".to_owned());
    r.push(options.compression.token());
    r.push("--crop".to_owned());
    r.push(options.crop.token());
    if options.overwrite {
        r.push("--override".to_owned());
    }
    if options.recursive {
        r.push("--recursive".to_owned());
    }
    r.push(input.clone());
    r.push(output_dir.clone());
    proof {
        assert(r.deep_view() =~= spec_invocation(*options, input@, output_dir@));
    }
    r
}

/// Build one argument list per input file, in input order, sharing the same
/// options and output directory.
pub fn build_all(
    options: &ConversionOptions,
    inputs: &Vec<String>,
    output_dir: &String,
) -> (r: Vec<Vec<String>>)
    ensures
        r@.len() == inputs@.len(),
        forall|i: int|
            0 <= i < inputs@.len() ==> r@[i].deep_view() == spec_invocation(
                *options,
                inputs@[i]@,
                output_dir@,
            ),
{
    let mut r: Vec<Vec<String>> = Vec::new();
    let mut k: usize = 0;
    while k < inputs.len()
        invariant
            k <= inputs@.len(),
            r@.len() == k,
            forall|i: int|
                0 <= i < k ==> r@[i].deep_view() == spec_invocation(
                    *options,
                    inputs@[i]@,
                    output_dir@,
                ),
        decreases inputs@.len() - k,
    {
        r.push(build_invocation(options, &inputs[k], output_dir));
        k = k + 1;
    }
    r
}

/// Law: the argument lists built for two input files of the same run have the
/// same length, carry each input at the input-path slot, and agree at every
/// other position — in particular the flag tokens stand in the same fixed
/// order in both.
pub proof fn lemma_invocations_differ_only_in_input(
    options: ConversionOptions,
    a: Seq<char>,
    b: Seq<char>,
    output_dir: Seq<char>,
)
    ensures
        spec_invocation(options, a, output_dir).len() == spec_invocation_len(options),
        spec_invocation(options, b, output_dir).len() == spec_invocation_len(options),
        spec_invocation(options, a, output_dir)[spec_input_index(options)] == a,
        spec_invocation(options, b, output_dir)[spec_input_index(options)] == b,
        forall|i: int|
            0 <= i < spec_invocation_len(options) && i != spec_input_index(options)
                ==> spec_invocation(options, a, output_dir)[i] == spec_invocation(
                options,
                b,
                output_dir,
            )[i],
{
}

} // verus!
