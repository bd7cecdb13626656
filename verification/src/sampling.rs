use vstd::prelude::*;

use vstd::string::StringExecFns;

use crate::types::SamplingFilter;

verus! {

/// What str::to_lowercase returns; a function of the characters alone.
pub uninterp spec fn lower_of(s: Seq<char>) -> Seq<char>;

/// Relies on str::to_lowercase: lower-cases according to Unicode, the result
/// depending on the characters alone.
#[verifier::external_body]
fn lowercase(s: &str) -> (r: String)
    ensures
        r@ == lower_of(s@),
{
    s.to_lowercase()
}

/// The filter a lower-case name selects: the five kernels under their own
/// names, "best" as an alias for Lanczos, anything else none.
pub open spec fn spec_filter_of(name: Seq<char>) -> Option<SamplingFilter> {
    if name == "nearest"@ {
        Option::Some(SamplingFilter::Nearest)
    } else if name == "linear"@ {
        Option::Some(SamplingFilter::Linear)
    } else if name == "cubic"@ {
        Option::Some(SamplingFilter::Cubic)
    } else if name == "gaussian"@ {
        Option::Some(SamplingFilter::Gaussian)
    } else if name == "lanczos"@ {
        Option::Some(SamplingFilter::Lanczos)
    } else if name == "best"@ {
        Option::Some(SamplingFilter::Lanczos)
    } else {
        Option::None
    }
}

/// True exactly when the two slices hold the same characters.
fn str_eq(a: &str, b: &str) -> (r: bool)
    ensures
        r == (a@ == b@),
{
    let sa = String::from_str(a);
    let sb = String::from_str(b);
    sa == sb
}

/// Maps a filter name, as given, to the filter it names; the lookup is exact,
/// so callers lower-case first.
pub fn filter_for_name(name: &str) -> (r: Option<SamplingFilter>)
    ensures
        r == spec_filter_of(name@),
{
    if str_eq(name, "nearest") {
        Option::Some(SamplingFilter::Nearest)
    } else if str_eq(name, "linear") {
        Option::Some(SamplingFilter::Linear)
    } else if str_eq(name, "cubic") {
        Option::Some(SamplingFilter::Cubic)
    } else if str_eq(name, "gaussian") {
        Option::Some(SamplingFilter::Gaussian)
    } else if str_eq(name, "lanczos") {
        Option::Some(SamplingFilter::Lanczos)
    } else if str_eq(name, "best") {
        Option::Some(SamplingFilter::Lanczos)
    } else {
        Option::None
    }
}

/// Selects the sampling filter a request names, case-insensitively. An absent
/// or unrecognized name selects none, which leaves the resizer its default.
pub fn get_samling_filter(query: &Option<String>) -> (r: Option<SamplingFilter>)
    ensures
        r == (match query {
            Option::Some(f) => spec_filter_of(lower_of(f@)),
            Option::None => Option::<SamplingFilter>::None,
        }),
{
    match query {
        Option::Some(f) => {
            let low = lowercase(f.as_str());
            filter_for_name(low.as_str())
        },
        Option::None => Option::None,
    }
}

} // verus!
