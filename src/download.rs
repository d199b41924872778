use vstd::prelude::*;

verus! {

/// Index at which the path segment ending at `i` starts: one past the last
/// `'/'` before `i`, or 0 when there is none.
pub open spec fn segment_start(s: Seq<char>, i: int) -> int
    decreases i,
{
    if i <= 0 {
        0
    } else if s[i - 1] == '/' {
        i
    } else {
        segment_start(s, i - 1)
    }
}

/// The final `/`-separated segment of `s` (all of `s` when it has no `'/'`).
pub open spec fn last_segment(s: Seq<char>) -> Seq<char> {
    s.subrange(segment_start(s, s.len() as int), s.len() as int)
}

/// Where a downloaded image is stored: the directory, a `'/'`, and the last
/// segment of the image's URL.
pub open spec fn image_path(dir: Seq<char>, url: Seq<char>) -> Seq<char> {
    dir + seq!['/'] + last_segment(url)
}

proof fn lemma_segment_start_bounds(s: Seq<char>, i: int)
    requires
        0 <= i <= s.len(),
    ensures
        0 <= segment_start(s, i) <= i,
        forall|j: int| segment_start(s, i) <= j < i ==> s[j] != '/',
    decreases i,
{
    if i > 0 && s[i - 1] != '/' {
        lemma_segment_start_bounds(s, i - 1);
    }
}

/// The file name of an image URL: its last `/`-separated segment.
pub fn image_file_name(image_url: &str) -> (r: String)
    ensures
        r@ == last_segment(image_url@),
{
    let n = image_url.unicode_len();
    let mut i: usize = n;
    while i > 0 && image_url.get_char(i - 1) != '/'
        invariant
            n == image_url@.len(),
            i <= n,
            segment_start(image_url@, i as int) == segment_start(image_url@, n as int),
        decreases i,
    {
        i = i - 1;
    }
    proof {
        lemma_segment_start_bounds(image_url@, n as int);
    }
    image_url.substring_char(i, n).to_string()
}

/// The local path an image URL is downloaded to inside `dir`.
pub fn image_file_path(dir: &str, image_url: &str) -> (r: String)
    ensures
        r@ == image_path(dir@, image_url@),
{
    let name = image_file_name(image_url);
    let mut path = dir.to_string();
    path.append("/");
    path.append(name.as_str());
    proof {
        reveal_strlit("/");
    }
    path
}

} // verus!
