use vstd::prelude::*;

verus! {

/// Whether `p` occurs in `s` as a contiguous run.
pub open spec fn has_substring(s: Seq<char>, p: Seq<char>) -> bool {
    exists|k: int| 0 <= k && k + p.len() <= s.len() && #[trigger] s.subrange(k, k + p.len()) == p
}

/// Whether one of the frame's symbol names contains `pat`.
pub open spec fn frame_has(frame: Seq<Option<String>>, pat: Seq<char>) -> bool {
    exists|i: int|
        0 <= i < frame.len() && #[trigger] frame[i] is Some && has_substring(frame[i]->0@, pat)
}

/// A frame of the error-construction machinery itself, call-history capture
/// included.
pub open spec fn is_plumbing(frame: Seq<Option<String>>) -> bool {
    frame_has(frame, "::from"@) || frame_has(frame, "::into"@) || frame_has(frame, "host::err"@)
        || frame_has(frame, "Host::err"@) || frame_has(frame, "Host>::err"@) || frame_has(
        frame,
        "::augment_err_result"@,
    ) || frame_has(frame, "::capture_backtrace"@) || frame_has(frame, "::maybe_get_debug_info"@)
}

/// The frame at which the host's externally visible entry point begins.
pub open spec fn is_entry_boundary(frame: Seq<Option<String>>) -> bool {
    frame_has(frame, "__rust_begin_short_backtrace"@)
}

/// `r` is `frames` with the leading run of plumbing frames dropped and cut
/// before the first entry-boundary frame after that.
pub open spec fn is_trimmed(frames: Seq<Vec<Option<String>>>, r: Seq<Vec<Option<String>>>) -> bool {
    exists|a: int, b: int|
        #![trigger frames.subrange(a, b)]
        0 <= a <= b <= frames.len() && r == frames.subrange(a, b) && (forall|i: int|
            0 <= i < a ==> is_plumbing(#[trigger] frames[i]@)) && (a < frames.len()
            ==> !is_plumbing(frames[a]@)) && (forall|i: int|
            a <= i < b ==> !is_entry_boundary(#[trigger] frames[i]@)) && (b < frames.len()
            ==> is_entry_boundary(frames[b]@))
}

pub fn contains_str(s: &str, p: &str) -> (r: bool)
    ensures
        r == has_substring(s@, p@),
{
    let n = s.unicode_len();
    let m = p.unicode_len();
    if m > n {
        return false;
    }
    if m == 0 {
        assert(s@.subrange(0int, 0int + p@.len()) =~= p@);
        return true;
    }
    let mut k: usize = 0;
    while k <= n - m
        invariant
            n == s@.len(),
            m == p@.len(),
            1 <= m <= n,
            k <= n - m + 1,
            forall|j: int| 0 <= j < k ==> #[trigger] s@.subrange(j, j + m) != p@,
        decreases n - m + 1 - k,
    {
        let mut i: usize = 0;
        let mut same = true;
        while i < m && same
            invariant
                n == s@.len(),
                m == p@.len(),
                k + m <= n,
                i <= m,
                same ==> forall|t: int| 0 <= t < i ==> s@[k + t] == p@[t],
                !same ==> s@.subrange(k as int, k + m) != p@,
            decreases m - i,
        {
            if s.get_char(k + i) != p.get_char(i) {
                assert(s@.subrange(k as int, k + m)[i as int] == s@[k + i]);
                same = false;
            }
            i = i + 1;
        }
        if same {
            assert(s@.subrange(k as int, k + m) =~= p@);
            return true;
        }
        k = k + 1;
    }
    false
}

pub fn frame_name_matches(frame: &Vec<Option<String>>, pat: &str) -> (r: bool)
    ensures
        r == frame_has(frame@, pat@),
{
    let mut i: usize = 0;
    while i < frame.len()
        invariant
            i <= frame@.len(),
            forall|j: int|
                0 <= j < i ==> !(#[trigger] frame@[j] is Some && has_substring(
                    frame@[j]->0@,
                    pat@,
                )),
        decreases frame@.len() - i,
    {
        match &frame[i] {
            Some(name) => {
                if contains_str(name.as_str(), pat) {
                    return true;
                }
            },
            None => {},
        }
        i = i + 1;
    }
    false
}

pub fn frame_is_initial_error_plumbing(frame: &Vec<Option<String>>) -> (r: bool)
    ensures
        r == is_plumbing(frame@),
{
    frame_name_matches(frame, "::from") || frame_name_matches(frame, "::into")
        || frame_name_matches(frame, "host::err") || frame_name_matches(frame, "Host::err")
        || frame_name_matches(frame, "Host>::err") || frame_name_matches(
        frame,
        "::augment_err_result",
    ) || frame_name_matches(frame, "::capture_backtrace") || frame_name_matches(
        frame,
        "::maybe_get_debug_info",
    )
}

pub fn frame_is_short_backtrace_start(frame: &Vec<Option<String>>) -> (r: bool)
    ensures
        r == is_entry_boundary(frame@),
{
    frame_name_matches(frame, "__rust_begin_short_backtrace")
}

/// Drops the frames of the error-construction machinery at the top of the
/// call history and everything from the entry-point boundary on.
pub fn trim_backtrace(frames: Vec<Vec<Option<String>>>) -> (r: Vec<Vec<Option<String>>>)
    ensures
        is_trimmed(frames@, r@),
{
    let mut frames = frames;
    let ghost all = frames@;
    let mut a: usize = 0;
    while a < frames.len() && frame_is_initial_error_plumbing(&frames[a])
        invariant
            frames@ == all,
            a <= all.len(),
            forall|i: int| 0 <= i < a ==> is_plumbing(#[trigger] all[i]@),
        decreases all.len() - a,
    {
        a = a + 1;
    }
    let mut b: usize = a;
    while b < frames.len() && !frame_is_short_backtrace_start(&frames[b])
        invariant
            frames@ == all,
            a <= b <= all.len(),
            forall|i: int| a <= i < b ==> !is_entry_boundary(#[trigger] all[i]@),
        decreases all.len() - b,
    {
        b = b + 1;
    }
    frames.truncate(b);
    let r = frames.split_off(a);
    assert(r@ == all.subrange(a as int, b as int));
    r
}

/// Relies on backtrace::Backtrace::new and on the frame and symbol accessors
/// of its result: the current call history, innermost frame first, each frame
/// with the names of its symbols. What it holds depends on the machine and
/// on the build, so nothing is stated of it.
#[verifier::external_body]
pub(crate) fn capture_backtrace() -> (r: Vec<Vec<Option<String>>>) {
    let bt = backtrace::Backtrace::new();
    bt.frames().iter().map(
        |f| f.symbols().iter().map(|s| s.name().map(|n| format!("{}", n))).collect(),
    ).collect()
}

} // verus!
