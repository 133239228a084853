//! Paths as they are sealed: relative to the run, and never under anybody's home.
use crate::text::{chars_of, same_text};
use vstd::prelude::*;

verus! {

/// A path that starts at the root.
pub open spec fn is_rooted(path: Seq<char>) -> bool {
    path.len() > 0 && path[0] == '/'
}

/// Where the segment that holds position `i` ends.
pub open spec fn segment_end(path: Seq<char>, i: int) -> int
    decreases path.len() - i,
{
    if i < 0 || i >= path.len() || path[i] == '/' {
        i
    } else {
        segment_end(path, i + 1)
    }
}

/// The text `.` between two positions.
pub open spec fn is_dot(path: Seq<char>, start: int, end: int) -> bool {
    end == start + 1 && path[start] == '.'
}

/// The segments of a path from position `i` on, by where they start and end. Separators may
/// repeat, and the segment `.` does not count.
pub open spec fn segments_from(path: Seq<char>, i: int) -> Seq<(int, int)>
    decreases path.len() - i,
{
    if i < 0 || i >= path.len() {
        Seq::empty()
    } else if path[i] == '/' {
        segments_from(path, i + 1)
    } else {
        proof {
            lemma_end_after(path, i);
        }
        let end = segment_end(path, i);
        if is_dot(path, i, end) {
            segments_from(path, end)
        } else {
            seq![(i, end)] + segments_from(path, end)
        }
    }
}

/// The segments of a path.
pub open spec fn segments(path: Seq<char>) -> Seq<(int, int)> {
    segments_from(path, 0)
}

/// The text of a segment.
pub open spec fn segment_text(path: Seq<char>, segment: (int, int)) -> Seq<char> {
    path.subrange(segment.0, segment.1)
}

/// The texts of the segments of a path.
pub open spec fn segment_texts(path: Seq<char>) -> Seq<Seq<char>> {
    Seq::new(segments(path).len(), |k: int| segment_text(path, segments(path)[k]))
}

/// A rooted path lies under a rooted directory, or is that directory.
pub open spec fn lies_under(path: Seq<char>, dir: Seq<char>) -> bool {
    &&& is_rooted(dir)
    &&& segments(dir).len() <= segments(path).len()
    &&& segment_texts(path).subrange(0, segments(dir).len() as int) == segment_texts(dir)
}

/// What is left of a path after its first `k` segments.
pub open spec fn rest_after(path: Seq<char>, k: int) -> Seq<char> {
    let segs = segments(path);
    if k >= segs.len() {
        Seq::empty()
    } else {
        path.subrange(segs[k].0, segs[segs.len() - 1].1)
    }
}

/// A relative path, with `.` for the empty one.
pub open spec fn dotted(rest: Seq<char>) -> Seq<char> {
    if rest.len() == 0 {
        "."@
    } else {
        rest
    }
}

/// The head of a home: `/Users/<user>` or `/home/<user>`.
pub open spec fn has_home_head(path: Seq<char>) -> bool {
    let texts = segment_texts(path);
    &&& is_rooted(path)
    &&& texts.len() >= 2
    &&& texts[0] == "Users"@ || texts[0] == "home"@
    &&& texts[1] != ".."@
}

/// The segments of a path from segment `k` on, joined by single separators.
pub open spec fn joined_from(path: Seq<char>, k: int) -> Seq<char>
    decreases segments(path).len() - k,
{
    let segs = segments(path);
    if k < 0 || k >= segs.len() {
        Seq::empty()
    } else if k == segs.len() - 1 {
        segment_text(path, segs[k])
    } else {
        segment_text(path, segs[k]) + "/"@ + joined_from(path, k + 1)
    }
}

/// A path without the head of a home.
pub open spec fn without_home_head(path: Seq<char>) -> Seq<char> {
    if has_home_head(path) {
        dotted(joined_from(path, 2))
    } else {
        path
    }
}

/// A directory that is named.
pub open spec fn named(dir: Option<&str>) -> bool {
    dir matches Some(d) && d@.len() > 0
}

/// A path as it is sealed: a relative one as it is; a rooted one relative to the working directory
/// or else to the home directory where it lies under one of them; and any other without the head of
/// a home.
pub open spec fn sealed_path(path: Seq<char>, cwd: Option<&str>, home: Option<&str>) -> Seq<char> {
    if !is_rooted(path) {
        path
    } else if named(cwd) && lies_under(path, cwd->0@) {
        dotted(rest_after(path, segments(cwd->0@).len() as int))
    } else if named(home) && lies_under(path, home->0@) {
        dotted(rest_after(path, segments(home->0@).len() as int))
    } else {
        without_home_head(path)
    }
}

/// The positions of the segments, for verified code.
spec fn positions(v: Seq<(usize, usize)>) -> Seq<(int, int)> {
    v.map_values(|p: (usize, usize)| (p.0 as int, p.1 as int))
}

/// A segment ends after it starts, within the path, and holds no separator.
pub proof fn lemma_end_after(path: Seq<char>, i: int)
    requires
        0 <= i < path.len(),
        path[i] != '/',
    ensures
        i < segment_end(path, i) <= path.len(),
        forall|j: int| i <= j < segment_end(path, i) ==> path[j] != '/',
    decreases path.len() - i,
{
    if i + 1 < path.len() && path[i + 1] != '/' {
        lemma_end_after(path, i + 1);
    } else {
        assert(segment_end(path, i + 1) == i + 1);
    }
}

proof fn lemma_segments_shape(path: Seq<char>, i: int, k: int)
    requires
        0 <= i,
        0 <= k < segments_from(path, i).len(),
    ensures
        i <= segments_from(path, i)[k].0 < segments_from(path, i)[k].1 <= path.len(),
        path[segments_from(path, i)[k].0] != '/',
        forall|j: int|
            segments_from(path, i)[k].0 <= j < segments_from(path, i)[k].1 ==> path[j] != '/',
    decreases path.len() - i,
{
    let segs = segments_from(path, i);
    if i < path.len() {
        if path[i] == '/' {
            lemma_segments_shape(path, i + 1, k);
        } else {
            let end = segment_end(path, i);
            lemma_end_after(path, i);
            if is_dot(path, i, end) {
                lemma_segments_shape(path, end, k);
            } else if k == 0 {
                assert(segs[0] == (i, end));
            } else {
                assert(segs[k] == segments_from(path, end)[k - 1]);
                lemma_segments_shape(path, end, k - 1);
            }
        }
    }
}

proof fn lemma_segments_ordered(path: Seq<char>, i: int, a: int, b: int)
    requires
        0 <= i,
        0 <= a <= b < segments_from(path, i).len(),
    ensures
        segments_from(path, i)[a].0 <= segments_from(path, i)[b].0,
        segments_from(path, i)[a].1 <= segments_from(path, i)[b].1,
    decreases path.len() - i,
{
    let segs = segments_from(path, i);
    if i < path.len() {
        if path[i] == '/' {
            lemma_segments_ordered(path, i + 1, a, b);
        } else {
            let end = segment_end(path, i);
            lemma_end_after(path, i);
            if is_dot(path, i, end) {
                lemma_segments_ordered(path, end, a, b);
            } else if a == 0 {
                if b > 0 {
                    assert(segs[b] == segments_from(path, end)[b - 1]);
                    lemma_segments_shape(path, end, b - 1);
                }
            } else {
                assert(segs[a] == segments_from(path, end)[a - 1]);
                assert(segs[b] == segments_from(path, end)[b - 1]);
                lemma_segments_ordered(path, end, a - 1, b - 1);
            }
        }
    }
}

fn find_segments(path: &str) -> (v: Vec<(usize, usize)>)
    ensures
        positions(v@) == segments(path@),
{
    let cs = chars_of(path);
    let n: usize = cs.len();
    let mut v: Vec<(usize, usize)> = Vec::new();
    let mut i: usize = 0;
    assert(positions(v@) + segments_from(path@, 0) =~= segments(path@));
    while i < n
        invariant
            cs@ == path@,
            n == cs.len(),
            i <= n,
            positions(v@) + segments_from(path@, i as int) == segments(path@),
        decreases n - i,
    {
        if cs[i] == '/' {
            i = i + 1;
        } else {
            let start: usize = i;
            let mut end: usize = i + 1;
            proof {
                lemma_end_after(path@, start as int);
            }
            while end < n && cs[end] != '/'
                invariant
                    cs@ == path@,
                    n == cs.len(),
                    start < end <= n,
                    segment_end(path@, start as int) == segment_end(path@, end as int),
                decreases n - end,
            {
                end = end + 1;
            }
            let dot = end == start + 1 && cs[start] == '.';
            if !dot {
                let ghost before = v@;
                v.push((start, end));
                proof {
                    let rest = segments_from(path@, end as int);
                    assert(positions(v@) =~= positions(before) + seq![(start as int, end as int)]);
                    assert(positions(before) + (seq![(start as int, end as int)] + rest)
                        =~= positions(v@) + rest);
                }
            }
            i = end;
        }
    }
    assert(positions(v@) + segments_from(path@, n as int) =~= positions(v@));
    v
}

fn is_root_path(path: &str) -> (r: bool)
    ensures
        r == is_rooted(path@),
{
    path.unicode_len() > 0 && path.get_char(0) == '/'
}

fn under(path: &str, segs: &Vec<(usize, usize)>, dir: &str) -> (r: Option<usize>)
    requires
        positions(segs@) == segments(path@),
    ensures
        match r {
            Some(k) => lies_under(path@, dir@) && k == segments(dir@).len(),
            None => !lies_under(path@, dir@),
        },
{
    if !is_root_path(dir) {
        return None;
    }
    let dsegs = find_segments(dir);
    if dsegs.len() > segs.len() {
        return None;
    }
    let ghost pt = segment_texts(path@);
    let ghost dt = segment_texts(dir@);
    let mut k: usize = 0;
    while k < dsegs.len()
        invariant
            positions(segs@) == segments(path@),
            positions(dsegs@) == segments(dir@),
            dsegs.len() <= segs.len(),
            k <= dsegs.len(),
            pt == segment_texts(path@),
            dt == segment_texts(dir@),
            forall|j: int| 0 <= j < k ==> #[trigger] pt[j] == dt[j],
        decreases dsegs.len() - k,
    {
        proof {
            lemma_segments_shape(path@, 0, k as int);
            lemma_segments_shape(dir@, 0, k as int);
            assert(positions(segs@)[k as int] == segments(path@)[k as int]);
            assert(positions(dsegs@)[k as int] == segments(dir@)[k as int]);
        }
        let a = path.substring_char(segs[k].0, segs[k].1);
        let b = dir.substring_char(dsegs[k].0, dsegs[k].1);
        assert(a@ == pt[k as int]);
        assert(b@ == dt[k as int]);
        if !same_text(a, b) {
            assert(pt.subrange(0, dsegs.len() as int)[k as int] != dt[k as int]);
            return None;
        }
        k = k + 1;
    }
    assert(pt.subrange(0, dsegs.len() as int) =~= dt);
    Some(dsegs.len())
}

fn rest(path: &str, segs: &Vec<(usize, usize)>, k: usize) -> (r: String)
    requires
        positions(segs@) == segments(path@),
    ensures
        r@ == rest_after(path@, k as int),
{
    if k >= segs.len() {
        return String::new();
    }
    proof {
        lemma_segments_shape(path@, 0, k as int);
        lemma_segments_shape(path@, 0, segs.len() - 1);
        lemma_segments_ordered(path@, 0, k as int, segs.len() - 1);
        assert(positions(segs@)[k as int] == segments(path@)[k as int]);
        assert(positions(segs@)[segs.len() - 1] == segments(path@)[segs.len() - 1]);
    }
    path.substring_char(segs[k].0, segs[segs.len() - 1].1).to_owned()
}

/// A relative path, with `.` for the empty one.
pub fn rel_or_dot(rel: String) -> (r: String)
    ensures
        r@ == dotted(rel@),
{
    if rel.as_str().is_empty() {
        ".".to_owned()
    } else {
        rel
    }
}

fn join_from(path: &str, segs: &Vec<(usize, usize)>, k: usize) -> (r: String)
    requires
        positions(segs@) == segments(path@),
    ensures
        r@ == joined_from(path@, k as int),
    decreases segs.len() - k,
{
    if k >= segs.len() {
        return String::new();
    }
    proof {
        lemma_segments_shape(path@, 0, k as int);
        assert(positions(segs@)[k as int] == segments(path@)[k as int]);
    }
    let mut r = path.substring_char(segs[k].0, segs[k].1).to_owned();
    if k == segs.len() - 1 {
        return r;
    }
    let tail = join_from(path, segs, k + 1);
    r.append("/");
    r.append(tail.as_str());
    r
}

/// A path without the head of a home.
pub fn drop_home_head(path: &str) -> (r: String)
    ensures
        r@ == without_home_head(path@),
{
    let segs = find_segments(path);
    if !is_root_path(path) || segs.len() < 2 {
        return path.to_owned();
    }
    proof {
        lemma_segments_shape(path@, 0, 0);
        lemma_segments_shape(path@, 0, 1);
        assert(positions(segs@)[0] == segments(path@)[0]);
        assert(positions(segs@)[1] == segments(path@)[1]);
    }
    let top = path.substring_char(segs[0].0, segs[0].1);
    let user = path.substring_char(segs[1].0, segs[1].1);
    assert(top@ == segment_texts(path@)[0]);
    assert(user@ == segment_texts(path@)[1]);
    if (same_text(top, "Users") || same_text(top, "home")) && !same_text(user, "..") {
        rel_or_dot(join_from(path, &segs, 2))
    } else {
        path.to_owned()
    }
}

/// A path as it is sealed, so that no home directory travels with a run.
pub fn relativize_for_seal(path: &str, cwd: Option<&str>, home: Option<&str>) -> (r: String)
    ensures
        r@ == sealed_path(path@, cwd, home),
{
    if !is_root_path(path) {
        return path.to_owned();
    }
    let segs = find_segments(path);
    match cwd {
        Some(dir) => {
            if !dir.is_empty() {
                match under(path, &segs, dir) {
                    Some(k) => return rel_or_dot(rest(path, &segs, k)),
                    None => {},
                }
            }
        },
        None => {},
    }
    match home {
        Some(dir) => {
            if !dir.is_empty() {
                match under(path, &segs, dir) {
                    Some(k) => return rel_or_dot(rest(path, &segs, k)),
                    None => {},
                }
            }
        },
        None => {},
    }
    drop_home_head(path)
}

proof fn lemma_dot_is_relative()
    ensures
        !is_rooted("."@),
{
    reveal_strlit(".");
}

proof fn lemma_rest_is_relative(path: Seq<char>, k: int)
    requires
        0 <= k,
    ensures
        !is_rooted(dotted(rest_after(path, k))),
{
    lemma_dot_is_relative();
    let segs = segments(path);
    if k < segs.len() {
        lemma_segments_shape(path, 0, k);
        lemma_segments_shape(path, 0, segs.len() - 1);
        lemma_segments_ordered(path, 0, k, segs.len() - 1);
        assert(rest_after(path, k)[0] == path[segs[k].0]);
    }
}

proof fn lemma_joined_is_relative(path: Seq<char>, k: int)
    requires
        0 <= k,
    ensures
        !is_rooted(dotted(joined_from(path, k))),
{
    lemma_dot_is_relative();
    let segs = segments(path);
    if k < segs.len() {
        lemma_segments_shape(path, 0, k);
        let text = segment_text(path, segs[k]);
        assert(text.len() > 0);
        assert(text[0] == path[segs[k].0]);
        assert(joined_from(path, k)[0] == text[0]);
    }
}

/// A sealed path never starts with the head of a home, whatever the working directory and the home
/// directory of the run are; and a path under a home is sealed as a relative one.
pub proof fn a_sealed_path_carries_no_home(path: Seq<char>, cwd: Option<&str>, home: Option<&str>)
    ensures
        !has_home_head(sealed_path(path, cwd, home)),
        has_home_head(path) ==> !is_rooted(sealed_path(path, cwd, home)),
{
    if is_rooted(path) {
        if named(cwd) && lies_under(path, cwd->0@) {
            lemma_rest_is_relative(path, segments(cwd->0@).len() as int);
        } else if named(home) && lies_under(path, home->0@) {
            lemma_rest_is_relative(path, segments(home->0@).len() as int);
        } else if has_home_head(path) {
            lemma_joined_is_relative(path, 2);
        }
    }
}

/// Sealing a sealed path changes nothing.
pub proof fn sealing_a_path_twice_is_sealing_it_once(
    path: Seq<char>,
    cwd: Option<&str>,
    home: Option<&str>,
)
    ensures
        sealed_path(sealed_path(path, cwd, home), cwd, home) == sealed_path(path, cwd, home),
{
    if is_rooted(path) {
        if named(cwd) && lies_under(path, cwd->0@) {
            lemma_rest_is_relative(path, segments(cwd->0@).len() as int);
        } else if named(home) && lies_under(path, home->0@) {
            lemma_rest_is_relative(path, segments(home->0@).len() as int);
        } else if has_home_head(path) {
            lemma_joined_is_relative(path, 2);
        }
    }
}

/// A path that is neither under the working directory, nor under the home directory, nor under
/// anybody's home is sealed as it is, and so is every relative path.
pub proof fn a_path_without_a_home_is_kept(path: Seq<char>, cwd: Option<&str>, home: Option<&str>)
    requires
        is_rooted(path) ==> {
            &&& !(named(cwd) && lies_under(path, cwd->0@))
            &&& !(named(home) && lies_under(path, home->0@))
            &&& !has_home_head(path)
        },
    ensures
        sealed_path(path, cwd, home) == path,
{
}

proof fn lemma_same_end(path: Seq<char>, dir: Seq<char>, i: int)
    requires
        0 <= i <= dir.len() < path.len(),
        forall|j: int| 0 <= j < dir.len() ==> path[j] == dir[j],
        path[dir.len() as int] == '/',
    ensures
        segment_end(path, i) == segment_end(dir, i),
    decreases dir.len() - i,
{
    if i < dir.len() && dir[i] != '/' {
        lemma_same_end(path, dir, i + 1);
    }
}

proof fn lemma_segments_go_on(path: Seq<char>, dir: Seq<char>, i: int)
    requires
        0 <= i <= dir.len() < path.len(),
        forall|j: int| 0 <= j < dir.len() ==> path[j] == dir[j],
        path[dir.len() as int] == '/',
    ensures
        segments_from(path, i) == segments_from(dir, i) + segments_from(path, dir.len() as int),
    decreases dir.len() - i,
{
    let rest = segments_from(path, dir.len() as int);
    if i == dir.len() {
        assert(segments_from(path, i) =~= segments_from(dir, i) + rest);
    } else if dir[i] == '/' {
        lemma_segments_go_on(path, dir, i + 1);
    } else {
        let end = segment_end(dir, i);
        lemma_same_end(path, dir, i);
        lemma_end_after(dir, i);
        lemma_segments_go_on(path, dir, end);
        assert(segments_from(path, i) =~= segments_from(dir, i) + rest);
    }
}

proof fn lemma_last_segment(path: Seq<char>, i: int)
    requires
        0 <= i < path.len(),
        path.last() != '/',
        path.last() != '.',
    ensures
        segments_from(path, i).len() > 0,
        segments_from(path, i).last().1 == path.len(),
    decreases path.len() - i,
{
    if path[i] == '/' {
        lemma_last_segment(path, i + 1);
    } else {
        let end = segment_end(path, i);
        lemma_end_after(path, i);
        lemma_end_at_separator(path, i);
        if end < path.len() {
            lemma_last_segment(path, end);
        } else {
            assert(!is_dot(path, i, end));
            assert(segments_from(path, end).len() == 0);
            assert(segments_from(path, i) =~= seq![(i, end)]);
        }
    }
}

proof fn lemma_end_at_separator(path: Seq<char>, i: int)
    requires
        0 <= i <= path.len(),
    ensures
        segment_end(path, i) < path.len() ==> path[segment_end(path, i)] == '/',
    decreases path.len() - i,
{
    if i < path.len() && path[i] != '/' {
        lemma_end_at_separator(path, i + 1);
    }
}

proof fn lemma_lies_under(path: Seq<char>, dir: Seq<char>, rest: Seq<char>)
    requires
        is_rooted(dir),
        path == dir + "/"@ + rest,
        rest.len() > 0,
        rest[0] != '/' && rest[0] != '.',
        rest.last() != '/' && rest.last() != '.',
    ensures
        is_rooted(path),
        lies_under(path, dir),
        rest_after(path, segments(dir).len() as int) == rest,
{
    reveal_strlit("/");
    let n = dir.len() as int;
    assert(path[n] == '/');
    assert(path[n + 1] == rest[0]);
    assert(path.last() == rest.last());
    lemma_segments_go_on(path, dir, 0);
    lemma_last_segment(path, n + 1);
    lemma_end_after(path, n + 1);
    let segs = segments(path);
    let k = segments(dir).len() as int;
    let tail = segments_from(path, n);
    assert(tail == segments_from(path, n + 1));
    assert(tail[0].0 == n + 1);
    assert(segs[k] == tail[0]);
    assert(segs.last() == tail.last());
    assert(path.subrange(n + 1, path.len() as int) =~= rest);
    assert forall|j: int| 0 <= j < k implies segment_texts(path)[j] == #[trigger] segment_texts(
        dir,
    )[j] by {
        lemma_segments_shape(dir, 0, j);
        let s = segments(dir)[j];
        assert(segs[j] == s);
        assert(path.subrange(s.0, s.1) =~= dir.subrange(s.0, s.1));
    }
    assert(segment_texts(path).subrange(0, k) =~= segment_texts(dir));
}

/// A path under the working directory is sealed as what follows that directory, and the working
/// directory itself as `.`; a path under the home directory likewise, unless it is under the working
/// directory. What follows neither starts nor ends with a separator or a dot.
pub proof fn a_path_under_a_directory_is_sealed_as_what_follows(
    dir: Seq<char>,
    rest: Seq<char>,
    cwd: Option<&str>,
    home: Option<&str>,
)
    requires
        is_rooted(dir),
        rest.len() > 0,
        rest[0] != '/' && rest[0] != '.',
        rest.last() != '/' && rest.last() != '.',
    ensures
        ({
            let path = dir + "/"@ + rest;
            let in_cwd = cwd is Some && cwd->0@ == dir;
            let in_home = home is Some && home->0@ == dir;
            &&& in_cwd ==> sealed_path(path, cwd, home) == rest
            &&& in_cwd ==> sealed_path(dir, cwd, home) == "."@
            &&& in_home && (cwd is None || cwd->0@.len() == 0) ==> sealed_path(path, cwd, home)
                == rest && sealed_path(dir, cwd, home) == "."@
            &&& in_home && cwd is Some && !lies_under(path, cwd->0@) ==> sealed_path(
                path,
                cwd,
                home,
            ) == rest
        }),
{
    let path = dir + "/"@ + rest;
    lemma_lies_under(path, dir, rest);
    assert(segment_texts(dir).subrange(0, segments(dir).len() as int) =~= segment_texts(dir));
}

proof fn lemma_end_is(path: Seq<char>, i: int, end: int)
    requires
        0 <= i <= end <= path.len(),
        forall|j: int| i <= j < end ==> path[j] != '/',
        end < path.len() ==> path[end] == '/',
    ensures
        segment_end(path, i) == end,
    decreases end - i,
{
    if i < end {
        lemma_end_is(path, i + 1, end);
    }
}

/// A name of one segment that stands for itself.
pub open spec fn is_plain_name(name: Seq<char>) -> bool {
    &&& name.len() > 0
    &&& forall|j: int| 0 <= j < name.len() ==> #[trigger] name[j] != '/'
    &&& name != "."@
    &&& name != ".."@
}

proof fn lemma_home_head(path: Seq<char>, top: Seq<char>, user: Seq<char>, rest: Seq<char>)
    requires
        path == "/"@ + top + "/"@ + user + rest,
        is_plain_name(top),
        is_plain_name(user),
        rest.len() == 0 || rest[0] == '/',
    ensures
        is_rooted(path),
        segment_texts(path).len() >= 2,
        segment_texts(path)[0] == top,
        segment_texts(path)[1] == user,
{
    reveal_strlit("/");
    reveal_strlit(".");
    let a = 1 + top.len() as int;
    let b = a + 1 + user.len() as int;
    assert forall|j: int| 1 <= j < a implies path[j] != '/' by {
        assert(path[j] == top[j - 1]);
    }
    assert forall|j: int| a + 1 <= j < b implies path[j] != '/' by {
        assert(path[j] == user[j - a - 1]);
    }
    assert(path[a] == '/');
    if rest.len() > 0 {
        assert(path[b] == rest[0]);
    }
    lemma_end_is(path, 1, a);
    lemma_end_is(path, a + 1, b);
    assert(path.subrange(1, a) =~= top);
    assert(path.subrange(a + 1, b) =~= user);
    if is_dot(path, 1, a) {
        assert(path[1] == top[0]);
        assert(top =~= "."@);
    }
    if is_dot(path, a + 1, b) {
        assert(path[a + 1] == user[0]);
        assert(user =~= "."@);
    }
    assert(path[0] == '/');
    assert(path[1] == top[0]);
    assert(path[a + 1] == user[0]);
    let tail = segments_from(path, b);
    assert(segments_from(path, a + 1) == seq![(a + 1, b)] + tail);
    assert(segments_from(path, a) == segments_from(path, a + 1));
    assert(segments_from(path, 1) == seq![(1int, a)] + segments_from(path, a));
    let segs = segments(path);
    assert(segs == segments_from(path, 1));
    assert(segs[0] == (1int, a));
    assert(segs[1] == (a + 1, b));
}

/// Whatever is under `/Users/<user>` or `/home/<user>` is under a home, and nothing under another
/// directory is.
pub proof fn a_home_is_under_users_or_home(
    path: Seq<char>,
    top: Seq<char>,
    user: Seq<char>,
    rest: Seq<char>,
)
    requires
        path == "/"@ + top + "/"@ + user + rest,
        is_plain_name(top),
        is_plain_name(user),
        rest.len() == 0 || rest[0] == '/',
    ensures
        has_home_head(path) <==> top == "Users"@ || top == "home"@,
{
    lemma_home_head(path, top, user, rest);
}

} // verus!
