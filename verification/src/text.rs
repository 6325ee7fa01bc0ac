//! Text helpers shared by the rest of the library: decimal rendering,
//! searching for separators, and path manipulation on character sequences.

use vstd::prelude::*;
use vstd::string::*;

verus! {

/// The character that stands for the decimal digit `d`.
pub open spec fn digit_char(d: nat) -> char
    recommends
        d < 10,
{
    if d == 0 {
        '0'
    } else if d == 1 {
        '1'
    } else if d == 2 {
        '2'
    } else if d == 3 {
        '3'
    } else if d == 4 {
        '4'
    } else if d == 5 {
        '5'
    } else if d == 6 {
        '6'
    } else if d == 7 {
        '7'
    } else if d == 8 {
        '8'
    } else {
        '9'
    }
}

/// The decimal representation of `n`, most significant digit first, without
/// leading zeros (zero itself is `"0"`).
pub open spec fn decimal_text(n: nat) -> Seq<char>
    decreases n,
{
    if n < 10 {
        seq![digit_char(n)]
    } else {
        decimal_text(n / 10).push(digit_char(n % 10))
    }
}

/// The one-character string of a decimal digit.
fn digit_str(d: usize) -> (s: &'static str)
    requires
        d < 10,
    ensures
        s@ == seq![digit_char(d as nat)],
{
    proof {
        reveal_strlit("0");
        reveal_strlit("1");
        reveal_strlit("2");
        reveal_strlit("3");
        reveal_strlit("4");
        reveal_strlit("5");
        reveal_strlit("6");
        reveal_strlit("7");
        reveal_strlit("8");
        reveal_strlit("9");
    }
    let s: &'static str = if d == 0 {
        "0"
    } else if d == 1 {
        "1"
    } else if d == 2 {
        "2"
    } else if d == 3 {
        "3"
    } else if d == 4 {
        "4"
    } else if d == 5 {
        "5"
    } else if d == 6 {
        "6"
    } else if d == 7 {
        "7"
    } else if d == 8 {
        "8"
    } else {
        "9"
    };
    assert(s@ =~= seq![digit_char(d as nat)]);
    s
}

/// Renders `n` in decimal.
pub fn decimal(n: usize) -> (s: String)
    ensures
        s@ == decimal_text(n as nat),
    decreases n,
{
    if n < 10 {
        String::from_str(digit_str(n))
    } else {
        let mut s: String = decimal(n / 10);
        s.append(digit_str(n % 10));
        assert(s@ =~= decimal_text(n as nat));
        s
    }
}


/// One past the position of the last occurrence of `c` in `s`; zero where
/// `c` does not occur.
pub open spec fn after_last(s: Seq<char>, c: char) -> int
    decreases s.len(),
{
    if s.len() == 0 {
        0
    } else if s.last() == c {
        s.len() as int
    } else {
        after_last(s.drop_last(), c)
    }
}

/// `after_last` lies within the sequence, the character before it is `c`,
/// and `c` does not occur from it on.
pub proof fn lemma_after_last(s: Seq<char>, c: char)
    ensures
        0 <= after_last(s, c) <= s.len(),
        after_last(s, c) > 0 ==> s[after_last(s, c) - 1] == c,
        forall|i: int| after_last(s, c) <= i < s.len() ==> s[i] != c,
    decreases s.len(),
{
    if s.len() > 0 && s.last() != c {
        let front = s.drop_last();
        lemma_after_last(front, c);
        assert forall|i: int| after_last(s, c) <= i < s.len() implies s[i] != c by {
            if i < front.len() {
                assert(front[i] == s[i]);
            }
        }
    }
}

/// Finds the end of the last occurrence of `c` in `s`.
pub fn find_after_last(s: &str, c: char) -> (r: usize)
    ensures
        r as int == after_last(s@, c),
        r <= s@.len(),
{
    let n: usize = s.unicode_len();
    let mut i: usize = n;
    proof {
        assert(s@.subrange(0, n as int) =~= s@);
        lemma_after_last(s@, c);
    }
    while i > 0
        invariant
            i <= n,
            n == s@.len(),
            after_last(s@, c) == after_last(s@.subrange(0, i as int), c),
            after_last(s@, c) <= s@.len(),
        decreases i,
    {
        let ghost prefix = s@.subrange(0, i as int);
        if s.get_char(i - 1) == c {
            assert(prefix.last() == c);
            return i;
        }
        proof {
            assert(prefix.last() != c);
            assert(prefix.drop_last() =~= s@.subrange(0, i - 1));
        }
        i = i - 1;
    }
    assert(s@.subrange(0, 0).len() == 0);
    0
}

/// What follows the last `/` of a path; the whole path where it holds none.
pub open spec fn last_segment(path: Seq<char>) -> Seq<char> {
    path.subrange(after_last(path, '/'), path.len() as int)
}

/// What follows the last `/` of a path holds no `/`.
pub proof fn lemma_last_segment_has_no_separator(path: Seq<char>)
    ensures
        !last_segment(path).contains('/'),
{
    lemma_after_last(path, '/');
}

/// Takes what follows the last `/` of a path.
pub fn last_segment_of(path: &str) -> (name: &str)
    ensures
        name@ == last_segment(path@),
        !name@.contains('/'),
{
    let start: usize = find_after_last(path, '/');
    let n: usize = path.unicode_len();
    proof {
        lemma_last_segment_has_no_separator(path@);
    }
    path.substring_char(start, n)
}

/// The length of a path without the separators at its end.
pub open spec fn trimmed_path_len(path: Seq<char>) -> int
    decreases path.len(),
{
    if path.len() == 0 {
        0
    } else if path.last() != '/' {
        path.len() as int
    } else {
        trimmed_path_len(path.drop_last())
    }
}

/// The trimmed length lies within the path.
pub proof fn lemma_trimmed_path_len(path: Seq<char>)
    ensures
        0 <= trimmed_path_len(path) <= path.len(),
    decreases path.len(),
{
    if path.len() > 0 && path.last() == '/' {
        lemma_trimmed_path_len(path.drop_last());
    }
}

/// A path without the separators at its end: `docs/` names what `docs`
/// names.
pub open spec fn without_trailing_separators(path: Seq<char>) -> Seq<char> {
    path.subrange(0, trimmed_path_len(path))
}

/// The final component of a path: what follows the last `/` once the
/// separators at the end of the path are dropped. A path that holds nothing
/// but separators has an empty final component.
pub open spec fn base_name_of(path: Seq<char>) -> Seq<char> {
    last_segment(without_trailing_separators(path))
}

/// The final component of a path holds no `/`.
pub proof fn lemma_base_name_has_no_separator(path: Seq<char>)
    ensures
        !base_name_of(path).contains('/'),
{
    lemma_last_segment_has_no_separator(without_trailing_separators(path));
}

/// Strips every directory component from `path`, and the separators at its
/// end.
pub fn base_name(path: &str) -> (name: &str)
    ensures
        name@ == base_name_of(path@),
        !name@.contains('/'),
{
    let n: usize = path.unicode_len();
    let mut end: usize = n;
    proof {
        assert(path@.subrange(0, n as int) =~= path@);
        lemma_trimmed_path_len(path@);
    }
    while end > 0 && path.get_char(end - 1) == '/'
        invariant
            end <= n,
            n == path@.len(),
            trimmed_path_len(path@) == trimmed_path_len(path@.subrange(0, end as int)),
        decreases end,
    {
        proof {
            let prefix = path@.subrange(0, end as int);
            assert(prefix.last() == '/');
            assert(prefix.drop_last() =~= path@.subrange(0, end - 1));
        }
        end = end - 1;
    }
    proof {
        let prefix = path@.subrange(0, end as int);
        if end > 0 {
            assert(prefix.last() != '/');
        }
        assert(trimmed_path_len(prefix) == end);
        lemma_base_name_has_no_separator(path@);
    }
    last_segment_of(path.substring_char(0, end))
}

/// `directory` followed by `name`, with one `/` between them unless the
/// directory is empty or already ends in one.
pub open spec fn joined_path(directory: Seq<char>, name: Seq<char>) -> Seq<char> {
    if directory.len() == 0 || directory.last() == '/' {
        directory + name
    } else {
        directory.push('/') + name
    }
}

/// Places the relative file `name` under `directory`.
pub fn join_path(directory: &str, name: &str) -> (path: String)
    ensures
        path@ == joined_path(directory@, name@),
{
    let n: usize = directory.unicode_len();
    let mut path: String = String::from_str(directory);
    if n > 0 && directory.get_char(n - 1) != '/' {
        proof {
            reveal_strlit("/");
        }
        path.append("/");
        assert(path@ =~= directory@.push('/'));
    }
    path.append(name);
    path
}

/// The text with every `:` and every `+` replaced by `-`.
pub open spec fn file_safe(text: Seq<char>) -> Seq<char> {
    text.map_values(
        |c: char|
            if c == ':' || c == '+' {
                '-'
            } else {
                c
            },
    )
}

/// Replaces the characters of a timestamp that a file name cannot hold
/// everywhere.
pub fn make_file_safe(text: &str) -> (safe: String)
    ensures
        safe@ == file_safe(text@),
{
    let n: usize = text.unicode_len();
    let mut safe: String = String::new();
    let mut i: usize = 0;
    proof {
        reveal_strlit("-");
    }
    while i < n
        invariant
            i <= n,
            n == text@.len(),
            safe@ == file_safe(text@.subrange(0, i as int)),
            "-"@ == seq!['-'],
        decreases n - i,
    {
        let c: char = text.get_char(i);
        if c == ':' || c == '+' {
            safe.append("-");
        } else {
            safe.append(text.substring_char(i, i + 1));
        }
        proof {
            assert(safe@ =~= file_safe(text@.subrange(0, i + 1)));
        }
        i = i + 1;
    }
    proof {
        assert(text@.subrange(0, n as int) =~= text@);
    }
    safe
}

/// The extension that marks the canonical image format.
pub open spec fn png_suffix() -> Seq<char> {
    seq!['.', 'p', 'n', 'g']
}

/// The path with the extension of its final component replaced by `.png`;
/// where that component has no extension, `.png` is appended.
pub open spec fn png_path_of(path: Seq<char>) -> Seq<char> {
    let start = after_last(path, '/');
    let dot = after_last(last_segment(path), '.');
    if dot == 0 {
        path + png_suffix()
    } else {
        path.subrange(0, start + dot - 1) + png_suffix()
    }
}

/// Gives a path the canonical image extension.
pub fn png_path(path: &str) -> (renamed: String)
    ensures
        renamed@ == png_path_of(path@),
{
    let name: &str = last_segment_of(path);
    let start: usize = find_after_last(path, '/');
    let dot: usize = find_after_last(name, '.');
    let n: usize = path.unicode_len();
    proof {
        reveal_strlit(".png");
        assert(".png"@ =~= png_suffix());
        assert(name@.len() == n - start);
    }
    let mut renamed: String = if dot == 0 {
        String::from_str(path)
    } else {
        String::from_str(path.substring_char(0, start + dot - 1))
    };
    renamed.append(".png");
    renamed
}


/// Whether two strings hold the same characters.
pub fn text_eq(a: &str, b: &str) -> (same: bool)
    ensures
        same == (a@ == b@),
{
    let left: String = String::from_str(a);
    let right: String = String::from_str(b);
    left == right
}


/// `after_last` is the one position behind which `c` does not occur and
/// before which, unless it is the start, `c` stands.
pub proof fn lemma_after_last_is(s: Seq<char>, c: char, q: int)
    requires
        0 <= q <= s.len(),
        q > 0 ==> s[q - 1] == c,
        forall|i: int| q <= i < s.len() ==> s[i] != c,
    ensures
        after_last(s, c) == q,
{
    lemma_after_last(s, c);
    let p = after_last(s, c);
    if p < q {
        assert(s[q - 1] == c);
    } else if p > q {
        assert(s[p - 1] == c);
    }
}

/// A name without `/` that is placed under a directory is what follows the
/// last `/` of the path: the file lies in the directory itself.
pub proof fn lemma_joined_path_keeps_name(directory: Seq<char>, name: Seq<char>)
    requires
        !name.contains('/'),
    ensures
        last_segment(joined_path(directory, name)) == name,
{
    let path = joined_path(directory, name);
    let q: int = path.len() - name.len();
    assert forall|i: int| q <= i < path.len() implies path[i] != '/' by {
        assert(path[i] == name[i - q]);
        assert(name.contains(name[i - q]));
    }
    if q > 0 {
        assert(path[q - 1] == '/');
    }
    lemma_after_last_is(path, '/', q);
    assert(path.subrange(q, path.len() as int) =~= name);
}

} // verus!
