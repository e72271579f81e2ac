//! Names for the files that the image extension writes.

use vstd::prelude::*;
use vstd::string::{StrSliceExecFns, StringExecFns};

verus! {

/// The position of the last `.` in a name, if it has one.
pub open spec fn last_dot(name: Seq<char>) -> Option<int>
    decreases name.len(),
{
    if name.len() == 0 {
        None
    } else if name.last() == '.' {
        Some(name.len() - 1)
    } else {
        last_dot(name.drop_last())
    }
}

/// A name with a number worked in. The number goes before the extension,
/// which is what follows the last `.` of the name; a name without a `.`
/// gets the extension `png`.
pub open spec fn numbered(name: Seq<char>, separator: Seq<char>, number: Seq<char>) -> Seq<char> {
    match last_dot(name) {
        None => name + separator + number + ".png"@,
        Some(at) => name.subrange(0, at) + separator + number + "."@ + name.subrange(
            at + 1,
            name.len() as int,
        ),
    }
}

/// The name of an output file. Where more than one sample is made, the
/// number of the sample is worked in behind a `.`; where the file is that of
/// a step, the number of the step is then worked in behind a `-`.
pub open spec fn output_name(
    basename: Seq<char>,
    sample: Seq<char>,
    num_samples: usize,
    step: Option<Seq<char>>,
) -> Seq<char> {
    let filename = if num_samples > 1 {
        numbered(basename, "."@, sample)
    } else {
        basename
    };
    match step {
        None => filename,
        Some(number) => numbered(filename, "-"@, number),
    }
}

/// That `text` is the decimal text of `number`.
pub open spec fn shows(number: usize, text: String) -> bool {
    vstd::string::to_string_from_display_ensures::<usize>(&number, text)
}

/// That `name` is the name of the output file for these arguments: the
/// name that [`output_name`] gives for the decimal texts of the two numbers.
pub open spec fn names_output(
    name: Seq<char>,
    basename: Seq<char>,
    sample_idx: usize,
    num_samples: usize,
    timestep_idx: Option<usize>,
) -> bool {
    match timestep_idx {
        None => exists|sample: String|
            #![trigger shows(sample_idx, sample)]
            shows(sample_idx, sample) && name == output_name(
                basename,
                sample@,
                num_samples,
                None,
            ),
        Some(number) => exists|sample: String, step: String|
            #![trigger shows(sample_idx, sample), shows(number, step)]
            shows(sample_idx, sample) && shows(number, step) && name == output_name(
                basename,
                sample@,
                num_samples,
                Some(step@),
            ),
    }
}

/// The last `.` of a name is where no `.` follows.
proof fn lemma_last_dot_skips(name: Seq<char>, end: int)
    requires
        0 < end <= name.len(),
        name[end - 1] != '.',
    ensures
        last_dot(name.subrange(0, end)) == last_dot(name.subrange(0, end - 1)),
{
    assert(name.subrange(0, end).drop_last() =~= name.subrange(0, end - 1));
}

/// Finds the last `.` of a name.
fn find_last_dot(name: &str) -> (found: Option<usize>)
    ensures
        match found {
            Some(at) => at < name@.len() && last_dot(name@) == Some(at as int),
            None => last_dot(name@) is None,
        },
{
    let mut end: usize = name.unicode_len();
    assert(name@.subrange(0, end as int) =~= name@);
    while end > 0
        invariant
            end <= name@.len(),
            last_dot(name@) == last_dot(name@.subrange(0, end as int)),
        decreases end,
    {
        if name.get_char(end - 1) == '.' {
            return Some(end - 1);
        }
        proof {
            lemma_last_dot_skips(name@, end as int);
        }
        end = end - 1;
    }
    None
}

/// Works a number into a name: before the extension, and with the extension
/// `png` where the name has none.
fn number_name(name: &str, separator: &str, number: &str) -> (result: String)
    ensures
        result@ == numbered(name@, separator@, number@),
{
    match find_last_dot(name) {
        None => {
            let mut result = name.to_string();
            result.append(separator);
            result.append(number);
            result.append(".png");
            result
        },
        Some(at) => {
            let length = name.unicode_len();
            let mut result = name.substring_char(0, at).to_string();
            result.append(separator);
            result.append(number);
            result.append(".");
            result.append(name.substring_char(at + 1, length));
            result
        },
    }
}

/// The name of the file for one sample, or for one step of one sample.
pub fn output_filename(
    basename: &str,
    sample_idx: usize,
    num_samples: usize,
    timestep_idx: Option<usize>,
) -> (name: String)
    ensures
        names_output(name@, basename@, sample_idx, num_samples, timestep_idx),
{
    let sample = sample_idx.to_string();
    let filename = if num_samples > 1 {
        number_name(basename, ".", sample.as_str())
    } else {
        basename.to_string()
    };
    match timestep_idx {
        None => {
            assert(shows(sample_idx, sample));
            filename
        },
        Some(number) => {
            let step = number.to_string();
            let name = number_name(filename.as_str(), "-", step.as_str());
            assert(shows(sample_idx, sample) && shows(number, step));
            name
        },
    }
}

} // verus!
