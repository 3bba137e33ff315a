//! The batch converter: one independent job per input file, each turning the
//! file's bytes into the bytes of the output file, or into a per-file failure.
use vstd::prelude::*;
use vstd::string::StringExecFns;
use crate::codec::{decode, decodes, encode, encoded, error_message, format_from_extension, is_codec_extension, resize_exact};
use crate::format::{resolution, resolve, resolves_as, ResolveError, ResolvedFormat};
use crate::text::{ascii_lower, extension, extension_of, replace_extension, with_extension};

verus! {

/// Why one file could not be converted. The text is a readable reason.
#[derive(Debug, PartialEq, Eq)]
pub enum FileError {
    /// The input could not be read, or its content is not an image of a known format.
    Decode(String),
    /// The image could not be encoded in the target format, or the output not written.
    Encode(String),
}

/// One file to convert: where it is read from and where its result goes.
#[derive(Debug)]
pub struct Job {
    pub input_path: String,
    pub output_path: String,
}

/// A resolved format together with one job per input path, in input order.
#[derive(Debug)]
pub struct Batch {
    pub format: ResolvedFormat,
    pub jobs: Vec<Job>,
}

/// What became of one input file.
#[derive(Debug)]
pub struct ConversionOutcome {
    pub input_path: String,
    pub output_path: String,
    pub result: Result<(), FileError>,
}

/// The output path for an input: same directory and stem, the extension of
/// the target encoding.
pub open spec fn output_path_of(input: Seq<char>, f: ResolvedFormat) -> Seq<char> {
    with_extension(input, f.encoding.extension_spec())
}

/// The views of a sequence of paths.
pub open spec fn path_views(paths: Seq<String>) -> Seq<Seq<char>> {
    paths.map_values(|p: String| p@)
}

/// The input paths of a sequence of outcomes.
pub open spec fn outcome_inputs(outcomes: Seq<ConversionOutcome>) -> Seq<Seq<char>> {
    outcomes.map_values(|o: ConversionOutcome| o.input_path@)
}

/// Whether `jobs` holds, in order, one job per input with its output path.
pub open spec fn plans(jobs: Seq<Job>, inputs: Seq<String>, f: ResolvedFormat) -> bool {
    &&& jobs.len() == inputs.len()
    &&& forall|i: int| 0 <= i < jobs.len() ==> {
        &&& (#[trigger] jobs[i]).input_path@ == inputs[i]@
        &&& jobs[i].output_path@ == output_path_of(inputs[i]@, f)
    }
}

/// The path that converting `input` to format `f` writes.
pub fn output_path(input: &str, f: &ResolvedFormat) -> (r: String)
    ensures
        r@ == output_path_of(input@, *f),
{
    replace_extension(input, f.encoding.extension())
}

/// Resolves the token and plans one job per input path. A token that does not
/// resolve fails the whole batch, and then no job exists.
pub fn plan(token: &str, inputs: &Vec<String>) -> (r: Result<Batch, ResolveError>)
    ensures
        r is Err <==> resolution(token@) is Err,
        match r {
            Ok(b) => resolves_as(token@, Ok(b.format)) && plans(b.jobs@, inputs@, b.format),
            Err(e) => resolves_as(token@, Err(e)),
        },
{
    let format = match resolve(token) {
        Ok(f) => f,
        Err(e) => return Err(e),
    };
    let mut jobs: Vec<Job> = Vec::new();
    let mut i: usize = 0;
    while i < inputs.len()
        invariant
            i <= inputs.len(),
            jobs.len() == i,
            forall|k: int| 0 <= k < i ==> {
                &&& (#[trigger] jobs[k]).input_path@ == inputs[k]@
                &&& jobs[k].output_path@ == output_path_of(inputs[k]@, format)
            },
        decreases inputs.len() - i,
    {
        let input = &inputs[i];
        let job = Job { input_path: input.clone(), output_path: output_path(input.as_str(), &format) };
        jobs.push(job);
        i = i + 1;
    }
    Ok(Batch { format, jobs })
}

/// Converts the bytes read from `input_path` into the bytes of the output file.
///
/// A failed read, or an input whose extension names no image format, is a
/// decode failure. Otherwise the bytes are decoded in the format that the
/// extension names, resized if the format asks for it, and encoded in the
/// target encoding; a codec failure is a decode or an encode failure by the
/// step that failed.
pub fn transcode(input_path: &str, read: Result<Vec<u8>, String>, f: &ResolvedFormat) -> (r: Result<Vec<u8>, FileError>)
    ensures
        read is Err ==> (r matches Err(FileError::Decode(m)) && m@ == read->Err_0@),
        read is Ok && !is_codec_extension(ascii_lower(extension_of(input_path@)))
            ==> r matches Err(FileError::Decode(_)),
        read is Ok && is_codec_extension(ascii_lower(extension_of(input_path@))) ==> {
            let d = read->Ok_0;
            let src = ascii_lower(extension_of(input_path@));
            let out = encoded(d@, src, f.transform, f.encoding.extension_spec());
            &&& (r matches Err(FileError::Decode(_))) <==> !decodes(d@, src)
            &&& decodes(d@, src) ==> match r {
                Ok(b) => out == Some(b@),
                Err(_) => out is None,
            }
        },
{
    let data = match read {
        Ok(d) => d,
        Err(m) => return Err(FileError::Decode(m)),
    };
    let source = match format_from_extension(extension(input_path)) {
        Some(s) => s,
        None => {
            let mut m = String::from_str("unrecognized image extension: ");
            m.append(input_path);
            return Err(FileError::Decode(m));
        },
    };
    let img = match decode(data.as_slice(), &source) {
        Ok(img) => img,
        Err(e) => return Err(FileError::Decode(error_message(&e))),
    };
    let img = match f.transform {
        Some(t) => resize_exact(&img, t),
        None => img,
    };
    let target = format_from_extension(f.encoding.extension());
    proof {
        lemma_encodings_are_codec_extensions(*f);
    }
    let target = target.unwrap();
    match encode(&img, &target) {
        Ok(bytes) => Ok(bytes),
        Err(e) => Err(FileError::Encode(error_message(&e))),
    }
}

/// Whether `outcomes` pairs, in order, each job with its result.
pub open spec fn reports(outcomes: Seq<ConversionOutcome>, jobs: Seq<Job>, results: Seq<Result<(), FileError>>) -> bool {
    &&& outcomes.len() == jobs.len()
    &&& forall|i: int| 0 <= i < outcomes.len() ==> {
        &&& (#[trigger] outcomes[i]).input_path@ == jobs[i].input_path@
        &&& outcomes[i].output_path@ == jobs[i].output_path@
        &&& outcomes[i].result == results[i]
    }
}

/// Pairs each job with the result of converting its file, keeping job order.
pub fn report(jobs: Vec<Job>, results: Vec<Result<(), FileError>>) -> (r: Vec<ConversionOutcome>)
    requires
        jobs.len() == results.len(),
    ensures
        reports(r@, jobs@, results@),
{
    let ghost j0 = jobs@;
    let ghost r0 = results@;
    let mut jobs = jobs;
    let mut results = results;
    let mut out: Vec<ConversionOutcome> = Vec::new();
    while jobs.len() > 0
        invariant
            jobs.len() == results.len(),
            out.len() + jobs.len() == j0.len(),
            j0.len() == r0.len(),
            jobs@ == j0.subrange(out.len() as int, j0.len() as int),
            results@ == r0.subrange(out.len() as int, r0.len() as int),
            forall|k: int| 0 <= k < out.len() ==> {
                &&& (#[trigger] out[k]).input_path@ == j0[k].input_path@
                &&& out[k].output_path@ == j0[k].output_path@
                &&& out[k].result == r0[k]
            },
        decreases jobs.len(),
    {
        let job = jobs.remove(0);
        let result = results.remove(0);
        out.push(ConversionOutcome { input_path: job.input_path, output_path: job.output_path, result });
        proof {
            assert(jobs@ =~= j0.subrange(out.len() as int, j0.len() as int));
            assert(results@ =~= r0.subrange(out.len() as int, r0.len() as int));
        }
    }
    out
}

/// A batch reports exactly one outcome per input path, in input order, with
/// the output path planned for it: the outcomes' input paths are the inputs,
/// so they form the same set, and distinct inputs give distinct outcomes.
pub proof fn law_one_outcome_per_input(
    inputs: Seq<String>,
    f: ResolvedFormat,
    jobs: Seq<Job>,
    results: Seq<Result<(), FileError>>,
    outcomes: Seq<ConversionOutcome>,
)
    requires
        plans(jobs, inputs, f),
        reports(outcomes, jobs, results),
    ensures
        outcomes.len() == inputs.len(),
        outcome_inputs(outcomes) == path_views(inputs),
        outcome_inputs(outcomes).to_set() == path_views(inputs).to_set(),
        path_views(inputs).no_duplicates() ==> outcome_inputs(outcomes).no_duplicates(),
        forall|i: int| 0 <= i < outcomes.len()
            ==> (#[trigger] outcomes[i]).output_path@ == output_path_of(inputs[i]@, f),
{
    assert(outcome_inputs(outcomes) =~= path_views(inputs));
    assert forall|i: int| 0 <= i < outcomes.len()
        implies (#[trigger] outcomes[i]).output_path@ == output_path_of(inputs[i]@, f) by {
        assert(jobs[i].output_path@ == output_path_of(inputs[i]@, f));
    }
}

proof fn lemma_encodings_are_codec_extensions(f: ResolvedFormat)
    ensures
        ascii_lower(f.encoding.extension_spec()) == f.encoding.extension_spec(),
        is_codec_extension(f.encoding.extension_spec()),
{
    let e = f.encoding.extension_spec();
    assert(ascii_lower(e) =~= e);
}

} // verus!
