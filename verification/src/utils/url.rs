//! The media type of a file, read off the extension of its address.

use vstd::prelude::*;
use crate::text::chars_of;

verus! {

/// Where the last segment of `s` begins: just behind its last `/`, or at 0.
pub open spec fn segment_start(s: Seq<char>) -> int
    decreases s.len(),
{
    if s.len() == 0 || s.last() == '/' {
        s.len() as int
    } else {
        segment_start(s.drop_last())
    }
}

/// The last segment of `path` between slashes that is neither empty nor `.`; none if there
/// is no such segment or if it is `..`.
pub open spec fn file_name_spec(path: Seq<char>) -> Option<Seq<char>>
    decreases path.len(),
{
    let start = segment_start(path);
    if start < 0 || start > path.len() {
        None
    } else {
        let segment = path.subrange(start, path.len() as int);
        if segment.len() == 0 || segment == seq!['.'] {
            if start == 0 {
                None
            } else {
                file_name_spec(path.subrange(0, start - 1))
            }
        } else if segment == seq!['.', '.'] {
            None
        } else {
            Some(segment)
        }
    }
}

/// The index of the last `.` of `name`, or -1 if it has none.
pub open spec fn last_dot(name: Seq<char>) -> int
    decreases name.len(),
{
    if name.len() == 0 {
        -1
    } else if name.last() == '.' {
        name.len() - 1
    } else {
        last_dot(name.drop_last())
    }
}

/// What follows the last `.` of the file name of `path`, if the name has a `.` that is not
/// its first character.
pub open spec fn extension_spec(path: Seq<char>) -> Option<Seq<char>> {
    match file_name_spec(path) {
        Some(name) => if last_dot(name) > 0 {
            Some(name.subrange(last_dot(name) + 1, name.len() as int))
        } else {
            None
        },
        None => None,
    }
}

/// The media type for a file extension: PNG and JPEG images are known, all else is a stream
/// of bytes.
pub open spec fn mime_of_extension(extension: Option<Seq<char>>) -> Seq<char> {
    if extension == Some(seq!['p', 'n', 'g']) {
        "image/png"@
    } else if extension == Some(seq!['j', 'p', 'g']) || extension == Some(
        seq!['j', 'p', 'e', 'g'],
    ) {
        "image/jpeg"@
    } else {
        "application/octet-stream"@
    }
}

/// The media type of the file at `url`.
pub open spec fn mime_type_spec(url: Seq<char>) -> Seq<char> {
    mime_of_extension(extension_spec(url))
}

proof fn lemma_segment_start_found(s: Seq<char>, start: int)
    requires
        0 <= start <= s.len(),
        forall|k: int| start <= k < s.len() ==> s[k] != '/',
        start > 0 ==> s[start - 1] == '/',
    ensures
        segment_start(s) == start,
    decreases s.len(),
{
    if s.len() > 0 && s.last() != '/' {
        lemma_segment_start_found(s.drop_last(), start);
    }
}

proof fn lemma_last_dot_found(name: Seq<char>, dot: int)
    requires
        -1 <= dot < name.len(),
        forall|k: int| dot < k < name.len() ==> name[k] != '.',
        dot >= 0 ==> name[dot] == '.',
    ensures
        last_dot(name) == dot,
    decreases name.len(),
{
    if name.len() > 0 && name.last() != '.' {
        lemma_last_dot_found(name.drop_last(), dot);
    }
}

/// The bounds in `v` of the file name of the path that `v` holds.
fn file_name_bounds(v: &Vec<char>) -> (out: Option<(usize, usize)>)
    ensures
        match out {
            Some((start, end)) => start <= end <= v.len() && file_name_spec(v@) == Some(
                v@.subrange(start as int, end as int),
            ),
            None => file_name_spec(v@).is_none(),
        },
{
    let mut end: usize = v.len();
    assert(v@.subrange(0, end as int) == v@);
    loop
        invariant
            end <= v.len(),
            file_name_spec(v@) == file_name_spec(v@.subrange(0, end as int)),
        decreases end,
    {
        let ghost path = v@.subrange(0, end as int);
        let mut start: usize = end;
        while start > 0 && v[start - 1] != '/'
            invariant
                start <= end <= v.len(),
                forall|k: int| start <= k < end ==> v@[k] != '/',
            decreases start,
        {
            start = start - 1;
        }
        proof {
            lemma_segment_start_found(path, start as int);
            assert(path.subrange(start as int, end as int) == v@.subrange(start as int, end as int));
        }
        let length = end - start;
        let ghost segment = v@.subrange(start as int, end as int);
        let skipped = length == 0 || (length == 1 && v[start] == '.');
        proof {
            if length == 1 && v[start as int] == '.' {
                assert(segment == seq!['.']);
            }
            if segment == seq!['.'] {
                assert(segment[0] == '.');
            }
        }
        if skipped {
            if start == 0 {
                return None;
            }
            assert(path.subrange(0, start - 1) == v@.subrange(0, start - 1));
            end = start - 1;
        } else {
            let parent = length == 2 && v[start] == '.' && v[start + 1] == '.';
            proof {
                if parent {
                    assert(segment == seq!['.', '.']);
                }
                if segment == seq!['.', '.'] {
                    assert(segment[0] == '.' && segment[1] == '.');
                }
            }
            if parent {
                return None;
            }
            return Some((start, end));
        }
    }
}

/// Whether `v[from..to]` is the text of `word`.
fn range_is(v: &Vec<char>, from: usize, to: usize, word: &Vec<char>) -> (same: bool)
    requires
        from <= to <= v.len(),
    ensures
        same == (v@.subrange(from as int, to as int) == word@),
{
    if to - from != word.len() {
        return false;
    }
    let mut i: usize = 0;
    while i < word.len()
        invariant
            from <= to <= v.len(),
            to - from == word.len(),
            i <= word.len(),
            forall|k: int| 0 <= k < i ==> v@[from + k] == word@[k],
        decreases word.len() - i,
    {
        if v[from + i] != word[i] {
            assert(v@.subrange(from as int, to as int)[i as int] != word@[i as int]);
            return false;
        }
        i = i + 1;
    }
    assert(v@.subrange(from as int, to as int) =~= word@);
    true
}

/// The media type of the file at `url`, by the extension of its file name: `image/png` for
/// `png`, `image/jpeg` for `jpg` and `jpeg`, `application/octet-stream` for all else.
pub fn get_mime_type(url: &str) -> (mime: &'static str)
    ensures
        mime@ == mime_type_spec(url@),
{
    let v = chars_of(url);
    match file_name_bounds(&v) {
        None => "application/octet-stream",
        Some((start, end)) => {
            let ghost name = v@.subrange(start as int, end as int);
            let mut dot: usize = end;
            while dot > start && v[dot - 1] != '.'
                invariant
                    start <= dot <= end <= v.len(),
                    forall|k: int| dot <= k < end ==> v@[k] != '.',
                decreases dot,
            {
                dot = dot - 1;
            }
            proof {
                lemma_last_dot_found(name, dot - start - 1);
            }
            if dot - start <= 1 {
                return "application/octet-stream";
            }
            assert(name.subrange(last_dot(name) + 1, name.len() as int) == v@.subrange(
                dot as int,
                end as int,
            ));
            let png: Vec<char> = vec!['p', 'n', 'g'];
            let jpg: Vec<char> = vec!['j', 'p', 'g'];
            let jpeg: Vec<char> = vec!['j', 'p', 'e', 'g'];
            assert(png@ == seq!['p', 'n', 'g']);
            assert(jpg@ == seq!['j', 'p', 'g']);
            assert(jpeg@ == seq!['j', 'p', 'e', 'g']);
            if range_is(&v, dot, end, &png) {
                "image/png"
            } else if range_is(&v, dot, end, &jpg) || range_is(&v, dot, end, &jpeg) {
                "image/jpeg"
            } else {
                "application/octet-stream"
            }
        },
    }
}

} // verus!
