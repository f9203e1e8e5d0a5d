use vstd::prelude::*;
use vstd::string::StringExecFns;

verus! {

/// The candidate locations of the alert sound, in search order: the
/// development tree, an assets directory under the working directory, the
/// assets directory beside the running executable (when the caller knows
/// it), and a bare file name in the working directory.
pub fn sound_candidates(exe_assets_path: Option<String>) -> (r: Vec<String>)
    ensures
        r@.len() == 4,
        r@[0]@ == "src/assets/alert.wav"@,
        r@[1]@ == "assets/alert.wav"@,
        r@[2]@ == (match exe_assets_path {
            Some(p) => p@,
            None => "alert.wav"@,
        }),
        r@[3]@ == "alert.wav"@,
{
    let mut r: Vec<String> = Vec::new();
    r.push(String::from_str("src/assets/alert.wav"));
    r.push(String::from_str("assets/alert.wav"));
    match exe_assets_path {
        Some(p) => r.push(p),
        None => r.push(String::from_str("alert.wav")),
    }
    r.push(String::from_str("alert.wav"));
    r
}

/// The first candidate from `start` onward that is present, where
/// `present[i]` says whether the file at candidate `i` exists: the search
/// takes the earliest existing location and skips the ones already tried.
/// No candidate present is not an error, only a missing optional asset.
pub fn first_present_from(present: &Vec<bool>, start: usize) -> (r: Option<usize>)
    ensures
        match r {
            Some(i) => {
                &&& start <= i < present@.len()
                &&& present@[i as int]
                &&& forall|j: int| start <= j < i ==> !present@[j]
            },
            None => forall|j: int| start <= j < present@.len() ==> !present@[j],
        },
{
    let mut i = start;
    while i < present.len()
        invariant
            start <= i,
            forall|j: int| start <= j < i && j < present@.len() ==> !present@[j],
        decreases present@.len() - i,
    {
        if present[i] {
            return Some(i);
        }
        i = i + 1;
    }
    None
}

} // verus!
