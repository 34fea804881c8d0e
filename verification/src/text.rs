//! Text and path helpers shared by the planners.
//!
//! Paths are handled as text with `/` as the separator. A path's components
//! are the runs of characters between separators; empty runs and `.` name no
//! entry and are passed over.

use vstd::prelude::*;

verus! {

/// The views of a list of strings, in order.
pub open spec fn texts(list: Seq<String>) -> Seq<Seq<char>> {
    Seq::new(list.len(), |i: int| list[i]@)
}

/// Index just behind the last `/` of `path`, or 0 where it holds none.
pub open spec fn segment_start(path: Seq<char>) -> int
    decreases path.len(),
{
    if path.len() == 0 {
        0
    } else if path.last() == '/' {
        path.len() as int
    } else {
        segment_start(path.drop_last())
    }
}

/// The last component of `path` that names an entry: the last run between
/// separators that is neither empty nor `.`. There is none where the path has
/// no such run, or where that run is `..`.
pub open spec fn last_component(path: Seq<char>) -> Option<Seq<char>>
    decreases path.len(),
{
    if path.len() == 0 {
        None
    } else {
        let start = segment_start(path);
        let run = path.subrange(start, path.len() as int);
        if run.len() == 0 || run == seq!['.'] {
            if 0 < start <= path.len() {
                last_component(path.subrange(0, start - 1))
            } else {
                None
            }
        } else if run == seq!['.', '.'] {
            None
        } else {
            Some(run)
        }
    }
}

/// The name under which a path's plaintext is kept: its last component, or
/// `temp` where it has none.
pub open spec fn base_name_of(path: Seq<char>) -> Seq<char> {
    match last_component(path) {
        Some(name) => name,
        None => "temp"@,
    }
}

/// `name` placed inside the directory `dir`.
pub open spec fn joined(dir: Seq<char>, name: Seq<char>) -> Seq<char> {
    if dir.len() == 0 {
        name
    } else if dir.last() == '/' {
        dir + name
    } else {
        dir + seq!['/'] + name
    }
}

/// Whether `text` holds no separator.
pub open spec fn separator_free(text: Seq<char>) -> bool {
    forall|i: int| 0 <= i < text.len() ==> text[i] != '/'
}

/// The last run of a path begins inside the path, just behind a separator
/// unless at the very start, and holds no separator.
proof fn lemma_segment_start_bounds(path: Seq<char>)
    ensures
        0 <= segment_start(path) <= path.len(),
        segment_start(path) > 0 ==> path[segment_start(path) - 1] == '/',
        forall|k: int| segment_start(path) <= k < path.len() ==> path[k] != '/',
    decreases path.len(),
{
    if path.len() > 0 && path.last() != '/' {
        let front = path.drop_last();
        lemma_segment_start_bounds(front);
        assert forall|k: int| segment_start(path) <= k < path.len() implies path[k] != '/' by {
            if k < front.len() {
                assert(front[k] == path[k]);
            }
        }
        if segment_start(path) > 0 {
        }
    }
}

/// The run behind the last separator is found by walking back from the end.
proof fn lemma_segment_start_is(path: Seq<char>, start: int)
    requires
        0 <= start <= path.len(),
        start > 0 ==> path[start - 1] == '/',
        forall|k: int| start <= k < path.len() ==> path[k] != '/',
    ensures
        segment_start(path) == start,
    decreases path.len(),
{
    if path.len() == 0 {
    } else if path.last() == '/' {
    } else {
        let front = path.drop_last();
        assert forall|k: int| start <= k < front.len() implies front[k] != '/' by {
        }
        if start > 0 {
        }
        lemma_segment_start_is(front, start);
    }
}

/// A path's last component holds no separator and is neither empty, `.` nor `..`.
proof fn lemma_last_component_is_a_name(path: Seq<char>)
    ensures
        last_component(path) matches Some(name) ==> {
            &&& separator_free(name)
            &&& name.len() > 0
            &&& name != seq!['.']
            &&& name != seq!['.', '.']
        },
    decreases path.len(),
{
    if path.len() > 0 {
        lemma_segment_start_bounds(path);
        let start = segment_start(path);
        let run = path.subrange(start, path.len() as int);
        if run.len() == 0 || run == seq!['.'] {
            if start > 0 {
                lemma_last_component_is_a_name(path.subrange(0, start - 1));
            }
        }
    }
}

/// The base name of any path is a single name: joined to a directory it
/// stays directly inside it.
pub proof fn lemma_base_name_is_a_name(path: Seq<char>)
    ensures
        separator_free(base_name_of(path)),
        base_name_of(path).len() > 0,
        base_name_of(path) != seq!['.'],
        base_name_of(path) != seq!['.', '.'],
{
    lemma_last_component_is_a_name(path);
    reveal_strlit("temp");
    if last_component(path) is None {
        let t = "temp"@;
        assert(t[0] == 't' && t[1] == 'e' && t[2] == 'm' && t[3] == 'p');
    }
}

/// The characters of `s`, in order.
pub fn chars_of(s: &str) -> (out: Vec<char>)
    ensures
        out@ == s@,
{
    let mut out: Vec<char> = Vec::new();
    for c in iter: s.chars()
        invariant
            iter.seq() == s@,
            out@ == s@.subrange(0, iter.index() as int),
    {
        out.push(c);
    }
    out
}

/// A copy of a list of strings.
pub fn clone_strings(list: &Vec<String>) -> (out: Vec<String>)
    ensures
        texts(out@) == texts(list@),
{
    let mut out: Vec<String> = Vec::new();
    let mut i: usize = 0;
    while i < list.len()
        invariant
            i <= list.len(),
            out.len() == i,
            forall|k: int| 0 <= k < i ==> out[k]@ == list[k]@,
        decreases list.len() - i,
    {
        out.push(list[i].clone());
        i = i + 1;
    }
    out
}

/// A copy of a byte string.
pub fn clone_bytes(bytes: &Vec<u8>) -> (out: Vec<u8>)
    ensures
        out@ == bytes@,
{
    let mut out: Vec<u8> = Vec::new();
    let mut i: usize = 0;
    while i < bytes.len()
        invariant
            i <= bytes.len(),
            out@ == bytes@.subrange(0, i as int),
        decreases bytes.len() - i,
    {
        out.push(bytes[i]);
        i = i + 1;
    }
    out
}

/// Index just behind the last `/` among the first `end` characters.
fn run_start(chars: &Vec<char>, end: usize) -> (start: usize)
    requires
        end <= chars.len(),
    ensures
        start <= end,
        start == segment_start(chars@.subrange(0, end as int)),
{
    let mut start: usize = end;
    while start > 0 && chars[start - 1] != '/'
        invariant
            start <= end <= chars.len(),
            forall|k: int| start <= k < end ==> chars[k] != '/',
        decreases start,
    {
        start = start - 1;
    }
    proof {
        lemma_segment_start_is(chars@.subrange(0, end as int), start as int);
    }
    start
}

/// The name under which the plaintext of `path` is kept: the path's last
/// component, or `temp` where it has none.
pub fn base_name(path: &str) -> (name: String)
    ensures
        name@ == base_name_of(path@),
{
    let chars = chars_of(path);
    let mut end: usize = chars.len();
    assert(chars@.subrange(0, end as int) =~= path@);
    while end > 0
        invariant
            end <= chars.len(),
            chars@ == path@,
            last_component(path@) == last_component(chars@.subrange(0, end as int)),
        decreases end,
    {
        let start = run_start(&chars, end);
        let ghost prefix = chars@.subrange(0, end as int);
        let ghost run = prefix.subrange(start as int, end as int);
        let len: usize = end - start;
        assert(run.len() == len);
        assert(forall|k: int| 0 <= k < len ==> run[k] == chars[start + k]);
        let dot: bool = len == 1 && chars[start] == '.';
        let dots: bool = len == 2 && chars[start] == '.' && chars[start + 1] == '.';
        assert(dot == (run == seq!['.'])) by {
            if dot {
                assert(run =~= seq!['.']);
            } else if run == seq!['.'] {
                assert(run[0] == '.');
            }
        }
        assert(dots == (run == seq!['.', '.'])) by {
            if dots {
                assert(run =~= seq!['.', '.']);
            } else if run == seq!['.', '.'] {
                assert(run[0] == '.' && run[1] == '.');
            }
        }
        if len == 0 || dot {
            if start == 0 {
                return "temp".to_owned();
            }
            assert(prefix.subrange(0, start - 1) =~= chars@.subrange(0, start - 1));
            end = start - 1;
        } else if dots {
            return "temp".to_owned();
        } else {
            return path.substring_char(start, end).to_owned();
        }
    }
    "temp".to_owned()
}

/// `name` placed inside the directory `dir`: the two joined by one separator,
/// unless `dir` is empty or already ends in one.
pub fn join_path(dir: &str, name: &str) -> (path: String)
    ensures
        path@ == joined(dir@, name@),
{
    let n: usize = dir.unicode_len();
    let mut path: String = dir.to_owned();
    if n > 0 && dir.get_char(n - 1) != '/' {
        path.append("/");
        proof {
            reveal_strlit("/");
        }
    }
    path.append(name);
    path
}

} // verus!
