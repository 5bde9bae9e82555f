//! Repository-relative paths: splitting on `/`, joining, and the normal form
//! that the views carry.

use vstd::prelude::*;


verus! {

/// What separates the segments of a path.
pub open spec fn separator() -> char {
    '/'
}

/// A name that can stand between two separators: not empty, no separator in it.
pub open spec fn is_segment(name: Seq<char>) -> bool {
    &&& name.len() > 0
    &&& forall|i: int| 0 <= i < name.len() ==> name[i] != separator()
}

/// Every element of `segments` is a segment.
pub open spec fn all_segments(segments: Seq<Seq<char>>) -> bool {
    forall|i: int| 0 <= i < segments.len() ==> is_segment(#[trigger] segments[i])
}

/// `done` with `current` added at its end, unless `current` is empty.
pub open spec fn flush(done: Seq<Seq<char>>, current: Seq<char>) -> Seq<Seq<char>> {
    if current.len() == 0 {
        done
    } else {
        done.push(current)
    }
}

/// Reading `path` from its start: the segments already closed by a separator,
/// and the characters read since the last separator.
pub open spec fn scan(path: Seq<char>) -> (Seq<Seq<char>>, Seq<char>)
    decreases path.len(),
{
    if path.len() == 0 {
        (Seq::empty(), Seq::empty())
    } else {
        let (done, current) = scan(path.drop_last());
        if path.last() == separator() {
            (flush(done, current), Seq::empty())
        } else {
            (done, current.push(path.last()))
        }
    }
}

/// The segments of `path`: the maximal runs of characters other than the
/// separator, in order. Empty runs (a leading, trailing or doubled separator)
/// give no segment.
pub open spec fn split(path: Seq<char>) -> Seq<Seq<char>> {
    flush(scan(path).0, scan(path).1)
}

/// The segments written one after another with one separator between each two.
pub open spec fn join(segments: Seq<Seq<char>>) -> Seq<char>
    decreases segments.len(),
{
    if segments.len() == 0 {
        Seq::empty()
    } else if segments.len() == 1 {
        segments[0]
    } else {
        join(segments.drop_last()) + seq![separator()] + segments.last()
    }
}

/// The normal form of a path: its segments joined, so without a leading,
/// trailing or doubled separator.
pub open spec fn normalize(path: Seq<char>) -> Seq<char> {
    join(split(path))
}

/// The normal form of a path that names a directory: the normal form with a
/// separator at its end, unless it is empty.
pub open spec fn normalize_dir(path: Seq<char>) -> Seq<char> {
    if split(path).len() == 0 {
        Seq::empty()
    } else {
        normalize(path).push(separator())
    }
}

/// The empty path has no segments.
pub proof fn lemma_split_empty()
    ensures
        split(Seq::empty()) == Seq::<Seq<char>>::empty(),
{
}

/// What `scan` has closed are segments, and what it holds open has no separator.
pub proof fn lemma_scan_segments(path: Seq<char>)
    ensures
        all_segments(scan(path).0),
        forall|i: int| 0 <= i < scan(path).1.len() ==> scan(path).1[i] != separator(),
    decreases path.len(),
{
    if path.len() > 0 {
        lemma_scan_segments(path.drop_last());
    }
}

/// Whatever the path, `split` yields segments only.
pub proof fn lemma_split_segments(path: Seq<char>)
    ensures
        all_segments(split(path)),
{
    lemma_scan_segments(path);
}

/// A text without separators is read as one open run.
pub proof fn lemma_scan_plain(name: Seq<char>)
    requires
        forall|i: int| 0 <= i < name.len() ==> name[i] != separator(),
    ensures
        scan(name) == (Seq::<Seq<char>>::empty(), name),
    decreases name.len(),
{
    if name.len() > 0 {
        lemma_scan_plain(name.drop_last());
        assert(name.drop_last().push(name.last()) =~= name);
    }
}

/// A segment splits into itself.
pub proof fn lemma_split_segment(name: Seq<char>)
    requires
        is_segment(name),
    ensures
        split(name) == seq![name],
{
    lemma_scan_plain(name);
    assert(Seq::<Seq<char>>::empty().push(name) =~= seq![name]);
}

/// Reading on after a separator: the segments of what came before it are
/// closed, and the rest is read as if it stood alone.
pub proof fn lemma_scan_after_separator(before: Seq<char>, after: Seq<char>)
    ensures
        scan(before + seq![separator()] + after) == (
            split(before) + scan(after).0,
            scan(after).1,
        ),
    decreases after.len(),
{
    let whole = before + seq![separator()] + after;
    if after.len() == 0 {
        assert(whole.drop_last() =~= before);
        assert(split(before) + Seq::<Seq<char>>::empty() =~= split(before));
    } else {
        lemma_scan_after_separator(before, after.drop_last());
        assert(whole.drop_last() =~= before + seq![separator()] + after.drop_last());
        assert(whole.last() == after.last());
        let (done, current) = scan(after.drop_last());
        if after.last() == separator() {
            assert(flush(split(before) + done, current) =~= split(before) + flush(
                done,
                current,
            ));
        }
    }
}

/// Splitting distributes over a separator: the segments of `before/after` are
/// those of `before` followed by those of `after`.
pub proof fn lemma_split_concat(before: Seq<char>, after: Seq<char>)
    ensures
        split(before + seq![separator()] + after) == split(before) + split(after),
{
    lemma_scan_after_separator(before, after);
    let (done, current) = scan(after);
    assert(flush(split(before) + done, current) =~= split(before) + flush(done, current));
}

/// Adding one segment behind a separator adds it to the segments.
pub proof fn lemma_split_child(path: Seq<char>, name: Seq<char>)
    requires
        is_segment(name),
    ensures
        split(path + seq![separator()] + name) == split(path).push(name),
{
    lemma_split_concat(path, name);
    lemma_split_segment(name);
    assert(split(path) + seq![name] =~= split(path).push(name));
}

/// Joining and splitting again gives the segments back.
pub proof fn lemma_split_join(segments: Seq<Seq<char>>)
    requires
        all_segments(segments),
    ensures
        split(join(segments)) == segments,
    decreases segments.len(),
{
    if segments.len() == 0 {
        assert(split(join(segments)) =~= segments);
    } else if segments.len() == 1 {
        lemma_split_segment(segments[0]);
        assert(seq![segments[0]] =~= segments);
    } else {
        assert(all_segments(segments.drop_last()));
        lemma_split_join(segments.drop_last());
        lemma_split_child(join(segments.drop_last()), segments.last());
        assert(segments.drop_last().push(segments.last()) =~= segments);
    }
}

/// A path that is written as segments with one separator between each two is
/// its own normal form.
pub proof fn lemma_joined_is_normal(segments: Seq<Seq<char>>)
    requires
        all_segments(segments),
    ensures
        normalize(join(segments)) == join(segments),
{
    lemma_split_join(segments);
}

/// A normal form is its own normal form.
pub proof fn lemma_normalize_idempotent(path: Seq<char>)
    ensures
        normalize(normalize(path)) == normalize(path),
        split(normalize(path)) == split(path),
{
    lemma_split_segments(path);
    lemma_split_join(split(path));
}

/// A joined path starts with the first character of its first segment, so a
/// normal form never starts with a separator.
pub proof fn lemma_join_first(segments: Seq<Seq<char>>)
    requires
        all_segments(segments),
        segments.len() > 0,
    ensures
        join(segments).len() > 0,
        join(segments)[0] == segments[0][0],
        join(segments)[0] != separator(),
    decreases segments.len(),
{
    if segments.len() > 1 {
        assert(all_segments(segments.drop_last()));
        lemma_join_first(segments.drop_last());
    }
}

/// A joined path ends with the last character of its last segment, so a
/// normal form never ends with a separator.
pub proof fn lemma_join_last(segments: Seq<Seq<char>>)
    requires
        all_segments(segments),
        segments.len() > 0,
    ensures
        join(segments).len() > 0,
        join(segments).last() == segments.last().last(),
        join(segments).last() != separator(),
{
    let tail = segments.last();
    assert(is_segment(tail));
    assert(tail[tail.len() - 1] != separator());
    if segments.len() > 1 {
        let whole = join(segments.drop_last()) + seq![separator()] + tail;
        assert(whole.last() == tail.last());
    }
}

/// The normal form of a directory is empty or ends with a separator, and a
/// normal form never starts with one.
pub proof fn lemma_normal_forms(path: Seq<char>)
    ensures
        normalize(path).len() > 0 ==> normalize(path)[0] != separator() && normalize(path).last()
            != separator(),
        normalize_dir(path).len() > 0 ==> normalize_dir(path)[0] != separator() && normalize_dir(
            path,
        ).last() == separator(),
        normalize(path).len() == 0 <==> split(path).len() == 0,
        normalize_dir(path).len() == 0 <==> split(path).len() == 0,
{
    lemma_split_segments(path);
    if split(path).len() > 0 {
        lemma_join_first(split(path));
        lemma_join_last(split(path));
    }
}

/// The segments of `path`, in order, each as a string of its own.
pub fn split_path(path: &str) -> (segments: Vec<String>)
    ensures
        segments.deep_view() == split(path@),
{
    let mut segments: Vec<String> = Vec::new();
    let mut current = String::new();
    let mut open = false;
    for c in it: path.chars()
        invariant
            it.seq() == path@,
            segments.deep_view() == scan(path@.take(it.index() as int)).0,
            current@ == scan(path@.take(it.index() as int)).1,
            open == (current@.len() > 0),
    {
        let ghost read = path@.take(it.index() as int);
        let ghost next = path@.take(it.index() + 1);
        proof {
            assert(next.drop_last() =~= read);
            assert(next.last() == c);
        }
        if c == '/' {
            if open {
                let ghost before = segments.deep_view();
                segments.push(current);
                assert(segments.deep_view() =~= before.push(current@));
                current = String::new();
                open = false;
            }
        } else {
            current.push(c);
            open = true;
        }
    }
    proof {
        assert(path@.take(path@.len() as int) =~= path@);
    }
    if open {
        let ghost before = segments.deep_view();
        segments.push(current);
        assert(segments.deep_view() =~= before.push(current@));
    }
    segments
}

/// The segments from position `from` on; none where `from` is behind the last.
pub open spec fn segments_from(segments: Seq<Seq<char>>, from: int) -> Seq<Seq<char>> {
    if 0 <= from <= segments.len() {
        segments.skip(from)
    } else {
        Seq::empty()
    }
}

/// The segments from position `from` on, joined with separators.
pub fn join_from(segments: &Vec<String>, from: usize) -> (path: String)
    ensures
        path@ == join(segments_from(segments.deep_view(), from as int)),
{
    let mut path = String::new();
    if from > segments.len() {
        return path;
    }
    let mut i: usize = from;
    let ghost rest = segments.deep_view().skip(from as int);
    while i < segments.len()
        invariant
            from <= i <= segments.len(),
            rest == segments.deep_view().skip(from as int),
            path@ == join(rest.take(i - from)),
        decreases segments.len() - i,
    {
        let ghost joined = rest.take(i - from);
        let ghost longer = rest.take(i - from + 1);
        proof {
            assert(longer.drop_last() =~= joined);
            assert(longer.last() == segments[i as int]@);
        }
        if i > from {
            path.push('/');
        }
        path.append(segments[i].as_str());
        proof {
            if i > from {
                assert(path@ =~= join(joined) + seq![separator()] + segments[i as int]@);
            } else {
                assert(joined.len() == 0);
                assert(path@ =~= segments[i as int]@);
            }
        }
        i += 1;
    }
    proof {
        assert(rest.take(rest.len() as int) =~= rest);
    }
    path
}

/// The normal form of `path`; with `directory` set, the normal form of a path
/// that names a directory.
pub fn normalize_path(path: &str, directory: bool) -> (normal: String)
    ensures
        normal@ == if directory {
            normalize_dir(path@)
        } else {
            normalize(path@)
        },
{
    let segments = split_path(path);
    let mut normal = join_from(&segments, 0);
    proof {
        assert(segments.deep_view().skip(0) =~= segments.deep_view());
    }
    if directory && segments.len() > 0 {
        normal.push('/');
    }
    normal
}

} // verus!
