//! Windows paths as texts: prefixes, file names and joining.
use vstd::prelude::*;
use vstd::string::*;

use crate::text::{chars_of, joined, text_of};

verus! {

/// The two path separators.
pub open spec fn is_sep(c: char) -> bool {
    c == '\\' || c == '/'
}

/// The separators of a path. Behind a verbatim prefix only the backslash is one.
pub open spec fn separates(c: char, verbatim: bool) -> bool {
    c == '\\' || (c == '/' && !verbatim)
}

fn sep(c: char, verbatim: bool) -> (b: bool)
    ensures
        b == separates(c, verbatim),
{
    c == '\\' || (c == '/' && !verbatim)
}

/// The ASCII letters.
pub open spec fn is_letter(c: char) -> bool {
    'a' <= c <= 'z' || 'A' <= c <= 'Z'
}

fn letter(c: char) -> (b: bool)
    ensures
        b == is_letter(c),
{
    ('a' <= c && c <= 'z') || ('A' <= c && c <= 'Z')
}

/// Where the component that starts at `from` ends: at the next separator, or at
/// the end of the path.
pub open spec fn component_end(s: Seq<char>, from: int, verbatim: bool) -> int
    decreases s.len() - from,
{
    if from >= s.len() {
        s.len() as int
    } else if separates(s[from], verbatim) {
        from
    } else {
        component_end(s, from + 1, verbatim)
    }
}

fn find_end(v: &Vec<char>, from: usize, verbatim: bool) -> (end: usize)
    requires
        from <= v@.len(),
    ensures
        end == component_end(v@, from as int, verbatim),
        from <= end <= v@.len(),
{
    let mut i: usize = from;
    while i < v.len() && !sep(v[i], verbatim)
        invariant
            from <= i <= v@.len(),
            component_end(v@, i as int, verbatim) == component_end(v@, from as int, verbatim),
        decreases v.len() - i,
    {
        i = i + 1;
    }
    i
}

/// Where two components from `from` end: `server\share`, or `server` alone
/// where no share follows.
pub open spec fn pair_end(s: Seq<char>, from: int, verbatim: bool) -> int {
    let server = component_end(s, from, verbatim);
    let share = component_end(s, server + 1, verbatim);
    if server < s.len() && share > server + 1 {
        share
    } else {
        server
    }
}

fn find_pair_end(v: &Vec<char>, from: usize, verbatim: bool) -> (end: usize)
    requires
        from <= v@.len(),
    ensures
        end == pair_end(v@, from as int, verbatim),
        from <= end <= v@.len(),
{
    let server = find_end(v, from, verbatim);
    if server < v.len() {
        let share = find_end(v, server + 1, verbatim);
        if share > server + 1 {
            return share;
        }
    }
    server
}

/// Whether a path starts with the verbatim marker `\\?\`.
pub open spec fn is_verbatim(s: Seq<char>) -> bool {
    s.len() >= 4 && s[0] == '\\' && s[1] == '\\' && s[2] == '?' && s[3] == '\\'
}

fn verbatim(v: &Vec<char>) -> (b: bool)
    ensures
        b == is_verbatim(v@),
{
    v.len() >= 4 && v[0] == '\\' && v[1] == '\\' && v[2] == '?' && v[3] == '\\'
}

/// Whether a path starts with a drive, such as `C:`.
pub open spec fn has_drive(s: Seq<char>) -> bool {
    s.len() >= 2 && is_letter(s[0]) && s[1] == ':'
}

fn drive(v: &Vec<char>) -> (b: bool)
    ensures
        b == has_drive(v@),
{
    v.len() >= 2 && letter(v[0]) && v[1] == ':'
}

/// The length of the prefix of a path:
/// `\\?\UNC\server\share`, `\\?\C:`, `\\?\name`, `\\.\device`,
/// `\\server\share`, `C:`, or nothing.
pub open spec fn prefix_len(s: Seq<char>) -> int {
    if is_verbatim(s) {
        if s.len() >= 8 && s[4] == 'U' && s[5] == 'N' && s[6] == 'C' && is_sep(s[7]) {
            pair_end(s, 8, true)
        } else if s.len() >= 6 && is_letter(s[4]) && s[5] == ':' && (s.len() == 6 || is_sep(s[6])) {
            6
        } else {
            component_end(s, 4, true)
        }
    } else if s.len() >= 2 && is_sep(s[0]) && is_sep(s[1]) {
        if s.len() >= 4 && s[2] == '.' && is_sep(s[3]) {
            component_end(s, 4, false)
        } else {
            let server = component_end(s, 2, false);
            let end = pair_end(s, 2, false);
            if server > 2 && end > server {
                end
            } else {
                0
            }
        }
    } else if has_drive(s) {
        2
    } else {
        0
    }
}

fn find_prefix(v: &Vec<char>) -> (len: usize)
    ensures
        len == prefix_len(v@),
        len <= v@.len(),
{
    if verbatim(v) {
        if v.len() >= 8 && v[4] == 'U' && v[5] == 'N' && v[6] == 'C' && sep(v[7], false) {
            find_pair_end(v, 8, true)
        } else if v.len() >= 6 && letter(v[4]) && v[5] == ':' && (v.len() == 6 || sep(
            v[6],
            false,
        )) {
            6
        } else {
            find_end(v, 4, true)
        }
    } else if v.len() >= 2 && sep(v[0], false) && sep(v[1], false) {
        if v.len() >= 4 && v[2] == '.' && sep(v[3], false) {
            find_end(v, 4, false)
        } else {
            let server = find_end(v, 2, false);
            let end = find_pair_end(v, 2, false);
            if server > 2 && end > server {
                end
            } else {
                0
            }
        }
    } else if drive(v) {
        2
    } else {
        0
    }
}

/// Whether a path names the root behind its prefix.
pub open spec fn is_rooted(s: Seq<char>) -> bool {
    prefix_len(s) < s.len() && is_sep(s[prefix_len(s)])
}

/// Where the components of a path start: behind the prefix and the root.
pub open spec fn body_start(s: Seq<char>) -> int {
    if is_rooted(s) {
        prefix_len(s) + 1
    } else {
        prefix_len(s)
    }
}

fn find_body(v: &Vec<char>) -> (from: usize)
    ensures
        from == body_start(v@),
        from <= v@.len(),
{
    let p = find_prefix(v);
    if p < v.len() && sep(v[p], false) {
        p + 1
    } else {
        p
    }
}

// ---------------------------------------------------------------------------
// File names
// ---------------------------------------------------------------------------
/// Where the component that ends at `hi` starts: behind the last separator, or
/// at `lo`.
pub open spec fn component_start(s: Seq<char>, lo: int, hi: int, verbatim: bool) -> int
    decreases hi - lo,
{
    if hi <= lo {
        lo
    } else if separates(s[hi - 1], verbatim) {
        hi
    } else {
        component_start(s, lo, hi - 1, verbatim)
    }
}

fn find_start(v: &Vec<char>, lo: usize, hi: usize, verbatim: bool) -> (start: usize)
    requires
        lo <= hi <= v@.len(),
    ensures
        start == component_start(v@, lo as int, hi as int, verbatim),
        lo <= start <= hi,
{
    let mut i: usize = hi;
    while i > lo && !sep(v[i - 1], verbatim)
        invariant
            lo <= i <= hi <= v@.len(),
            component_start(v@, lo as int, i as int, verbatim) == component_start(
                v@,
                lo as int,
                hi as int,
                verbatim,
            ),
        decreases i - lo,
    {
        i = i - 1;
    }
    i
}

/// The last component of `s[lo..hi]`. Empty components do not count, nor does
/// `.`, except behind a verbatim prefix. Where the last component is a
/// reference to a directory (`..`, or `.` behind a verbatim prefix), there is
/// no file name.
pub open spec fn last_name(s: Seq<char>, lo: int, hi: int, verbatim: bool) -> Option<Seq<char>>
    decreases hi - lo,
{
    if hi <= lo {
        None
    } else {
        let start = component_start(s, lo, hi, verbatim);
        let name = s.subrange(start, hi);
        let dot = name.len() == 1 && name[0] == '.';
        let dot_dot = name.len() == 2 && name[0] == '.' && name[1] == '.';
        if name.len() == 0 || (dot && !verbatim) {
            if lo < start <= hi {
                last_name(s, lo, start - 1, verbatim)
            } else {
                None
            }
        } else if dot || dot_dot {
            None
        } else {
            Some(name)
        }
    }
}

/// The file name of a path: its last component behind the prefix.
pub open spec fn file_name_of(path: Seq<char>) -> Option<Seq<char>> {
    last_name(path, body_start(path), path.len() as int, is_verbatim(path))
}

/// The file name of a path.
pub fn file_name(path: &str) -> (r: Option<String>)
    ensures
        match r {
            Some(name) => file_name_of(path@) == Some(name@),
            None => file_name_of(path@) is None,
        },
{
    let v = chars_of(path);
    let lo = find_body(&v);
    let verb = verbatim(&v);
    let mut hi: usize = v.len();
    while hi > lo
        invariant
            v@ == path@,
            lo == body_start(v@),
            verb == is_verbatim(v@),
            lo <= v@.len(),
            hi <= v@.len(),
            last_name(v@, lo as int, hi as int, verb) == file_name_of(path@),
        decreases hi,
    {
        let start = find_start(&v, lo, hi, verb);
        let len: usize = hi - start;
        let dot = len == 1 && v[start] == '.';
        let dot_dot = len == 2 && v[start] == '.' && v[start + 1] == '.';
        if len == 0 || (dot && !verb) {
            if start <= lo {
                return None;
            }
            hi = start - 1;
        } else if dot || dot_dot {
            return None;
        } else {
            return Some(text_of(&v, start, hi));
        }
    }
    None
}

/// A file name is not empty and holds no separator: no backslash, and no slash
/// unless the path has a verbatim prefix.
pub proof fn law_file_name_is_one_component(path: Seq<char>)
    ensures
        file_name_of(path) matches Some(name) ==> name.len() > 0 && forall|i: int|
            0 <= i < name.len() ==> !separates(#[trigger] name[i], is_verbatim(path)),
{
    lemma_prefix_len(path);
    lemma_last_name(path, body_start(path), path.len() as int, is_verbatim(path));
}

proof fn lemma_component_end(s: Seq<char>, from: int, verbatim: bool)
    requires
        0 <= from,
    ensures
        0 <= component_end(s, from, verbatim) <= s.len(),
        from <= s.len() ==> from <= component_end(s, from, verbatim),
        component_end(s, from, verbatim) < s.len() ==> separates(
            s[component_end(s, from, verbatim)],
            verbatim,
        ),
        forall|i: int|
            from <= i < component_end(s, from, verbatim) ==> !separates(#[trigger] s[i], verbatim),
    decreases s.len() - from,
{
    if from < s.len() && !separates(s[from], verbatim) {
        lemma_component_end(s, from + 1, verbatim);
    }
}

/// A prefix is a part of its path.
pub proof fn lemma_prefix_len(s: Seq<char>)
    ensures
        0 <= prefix_len(s) <= s.len(),
{
    lemma_component_end(s, 2, false);
    lemma_component_end(s, 4, false);
    lemma_component_end(s, 4, true);
    lemma_component_end(s, 8, true);
    lemma_component_end(s, component_end(s, 2, false) + 1, false);
    lemma_component_end(s, component_end(s, 8, true) + 1, true);
}

proof fn lemma_component_start(s: Seq<char>, lo: int, hi: int, verbatim: bool)
    requires
        0 <= lo <= hi <= s.len(),
    ensures
        lo <= component_start(s, lo, hi, verbatim) <= hi,
        forall|i: int|
            component_start(s, lo, hi, verbatim) <= i < hi ==> !separates(
                #[trigger] s[i],
                verbatim,
            ),
    decreases hi - lo,
{
    if hi > lo && !separates(s[hi - 1], verbatim) {
        lemma_component_start(s, lo, hi - 1, verbatim);
    }
}

proof fn lemma_last_name(s: Seq<char>, lo: int, hi: int, verbatim: bool)
    requires
        0 <= lo,
        hi <= s.len(),
    ensures
        last_name(s, lo, hi, verbatim) matches Some(name) ==> name.len() > 0 && forall|i: int|
            0 <= i < name.len() ==> !separates(#[trigger] name[i], verbatim),
    decreases hi - lo,
{
    if hi > lo {
        let start = component_start(s, lo, hi, verbatim);
        lemma_component_start(s, lo, hi, verbatim);
        if lo < start {
            lemma_last_name(s, lo, start - 1, verbatim);
        }
    }
}

// ---------------------------------------------------------------------------
// Joining
// ---------------------------------------------------------------------------
/// The components of `s` from `from` on. Empty ones do not count.
pub open spec fn parts(s: Seq<char>, from: int, verbatim: bool) -> Seq<Seq<char>>
    decreases s.len() - from,
{
    let end = component_end(s, from, verbatim);
    if from >= s.len() || end < from {
        Seq::empty()
    } else {
        let rest = if end < s.len() {
            parts(s, end + 1, verbatim)
        } else {
            Seq::empty()
        };
        if end == from {
            rest
        } else {
            seq![s.subrange(from, end)] + rest
        }
    }
}

/// Whether a component is a name, and not a reference to a directory.
pub open spec fn is_name(part: Seq<char>) -> bool {
    &&& !(part.len() == 1 && part[0] == '.')
    &&& !(part.len() == 2 && part[0] == '.' && part[1] == '.')
}

/// Where one more component leads: a name goes down, `.` stays, and `..` goes
/// back over a name.
pub open spec fn stepped(stack: Seq<Seq<char>>, part: Seq<char>) -> Seq<Seq<char>> {
    if is_name(part) {
        stack.push(part)
    } else if part.len() == 2 && stack.len() > 0 && is_name(stack.last()) {
        stack.drop_last()
    } else {
        stack
    }
}

/// Where some components lead from `stack`.
pub open spec fn walked(stack: Seq<Seq<char>>, path: Seq<Seq<char>>) -> Seq<Seq<char>>
    decreases path.len(),
{
    if path.len() == 0 {
        stack
    } else {
        stepped(walked(stack, path.drop_last()), path.last())
    }
}

/// The components with a backslash before each.
pub open spec fn slashed(stack: Seq<Seq<char>>) -> Seq<char>
    decreases stack.len(),
{
    if stack.len() == 0 {
        Seq::empty()
    } else {
        slashed(stack.drop_last()).push('\\') + stack.last()
    }
}

/// `path` as seen from a directory with a verbatim prefix: written anew, without
/// doubled separators, and with the references of `path` to directories resolved.
pub open spec fn verbatim_join(base: Seq<char>, path: Seq<char>) -> Seq<char> {
    let head = base.take(prefix_len(base));
    let stack = if is_rooted(path) {
        Seq::empty()
    } else {
        parts(base, body_start(base), true)
    };
    let all = walked(stack, parts(path, body_start(path), false));
    if all.len() == 0 && (is_rooted(base) || is_rooted(path)) {
        head.push('\\')
    } else {
        head + slashed(all)
    }
}

/// `path` as seen from the directory `base`. A path with a prefix stands for
/// itself. Behind a verbatim prefix the result is written anew. Elsewhere, a path
/// that starts at the root keeps the prefix of the base, and any other is put
/// behind the base, with a backslash between them unless the base ends in a
/// separator, is empty or is a bare drive.
pub open spec fn join_of(base: Seq<char>, path: Seq<char>) -> Seq<char> {
    if prefix_len(path) > 0 {
        path
    } else if is_verbatim(base) && path.len() > 0 {
        verbatim_join(base, path)
    } else if is_rooted(path) {
        base.take(prefix_len(base)) + path
    } else if base.len() == 0 || is_sep(base.last()) || (has_drive(base) && base.len() == 2) {
        base + path
    } else {
        base.push('\\') + path
    }
}

/// The contents of some components.
pub open spec fn views(v: Seq<Vec<char>>) -> Seq<Seq<char>> {
    Seq::new(v.len(), |i: int| v[i]@)
}

fn slice_of(v: &Vec<char>, from: usize, to: usize) -> (r: Vec<char>)
    requires
        from <= to <= v@.len(),
    ensures
        r@ == v@.subrange(from as int, to as int),
{
    let mut r: Vec<char> = Vec::new();
    let mut i: usize = from;
    while i < to
        invariant
            from <= i <= to <= v@.len(),
            r@ == v@.subrange(from as int, i as int),
        decreases to - i,
    {
        r.push(v[i]);
        i = i + 1;
        assert(r@ == v@.subrange(from as int, i as int));
    }
    r
}

fn find_parts(v: &Vec<char>, from: usize, verbatim: bool) -> (r: Vec<Vec<char>>)
    requires
        from <= v@.len(),
    ensures
        views(r@) == parts(v@, from as int, verbatim),
{
    let mut r: Vec<Vec<char>> = Vec::new();
    let mut i: usize = from;
    assert(views(r@) + parts(v@, i as int, verbatim) == parts(v@, from as int, verbatim));
    while i < v.len()
        invariant
            i <= v@.len(),
            views(r@) + parts(v@, i as int, verbatim) == parts(v@, from as int, verbatim),
        decreases v.len() - i,
    {
        let ghost before = views(r@);
        let end = find_end(v, i, verbatim);
        let ghost rest = if end < v@.len() {
            parts(v@, end + 1, verbatim)
        } else {
            Seq::empty()
        };
        if end > i {
            let part = slice_of(v, i, end);
            r.push(part);
            assert(views(r@) == before.push(part@));
            assert(before.push(part@) + rest == before + (seq![part@] + rest));
        }
        if end < v.len() {
            i = end + 1;
        } else {
            i = v.len();
        }
    }
    assert(views(r@) + parts(v@, v@.len() as int, verbatim) == views(r@));
    r
}

fn name(part: &Vec<char>) -> (b: bool)
    ensures
        b == is_name(part@),
{
    !(part.len() == 1 && part[0] == '.') && !(part.len() == 2 && part[0] == '.' && part[1] == '.')
}

fn walk(stack: &mut Vec<Vec<char>>, path: &Vec<Vec<char>>)
    ensures
        views(final(stack)@) == walked(views(old(stack)@), views(path@)),
{
    let ghost start = views(stack@);
    let mut i: usize = 0;
    assert(views(path@).take(0).len() == 0);
    while i < path.len()
        invariant
            i <= path@.len(),
            views(stack@) == walked(start, views(path@).take(i as int)),
        decreases path.len() - i,
    {
        let ghost before = stack@;
        let part = &path[i];
        assert(views(path@).take(i + 1).drop_last() == views(path@).take(i as int));
        assert(views(path@).take(i + 1).last() == part@);
        if name(part) {
            let copy = slice_of(part, 0, part.len());
            assert(copy@ == part@);
            stack.push(copy);
            assert(views(stack@) == views(before).push(part@));
        } else if part.len() == 2 && stack.len() > 0 && name(&stack[stack.len() - 1]) {
            stack.pop();
            assert(views(stack@) == views(before).drop_last());
        }
        i = i + 1;
    }
    assert(views(path@).take(path@.len() as int) == views(path@));
}

fn push_slashed(out: &mut String, stack: &Vec<Vec<char>>)
    ensures
        final(out)@ == old(out)@ + slashed(views(stack@)),
{
    let ghost start = out@;
    let mut i: usize = 0;
    assert(views(stack@).take(0).len() == 0);
    while i < stack.len()
        invariant
            i <= stack@.len(),
            out@ == start + slashed(views(stack@).take(i as int)),
        decreases stack.len() - i,
    {
        let ghost before = out@;
        let part = &stack[i];
        out.push('\\');
        let text = text_of(part, 0, part.len());
        out.append(text.as_str());
        proof {
            let shorter = views(stack@).take(i as int);
            let longer = views(stack@).take(i + 1);
            assert(longer.drop_last() == shorter);
            assert(longer.last() == part@);
            assert(text@ == part@);
            assert(out@ == start + (slashed(shorter).push('\\') + part@));
        }
        i = i + 1;
    }
    assert(views(stack@).take(stack@.len() as int) == views(stack@));
}

/// `path` as seen from the directory `base`.
pub fn join_path(base: &str, path: &str) -> (r: String)
    ensures
        r@ == join_of(base@, path@),
{
    let b = chars_of(base);
    let p = chars_of(path);
    if find_prefix(&p) > 0 {
        return path.to_string();
    }
    let keep = find_prefix(&b);
    let from_root = p.len() > 0 && sep(p[0], false);
    if verbatim(&b) && p.len() > 0 {
        let base_body = find_body(&b);
        let path_body = find_body(&p);
        let mut stack = if from_root {
            Vec::new()
        } else {
            find_parts(&b, base_body, true)
        };
        assert(from_root ==> views(stack@) == Seq::<Seq<char>>::empty());
        let steps = find_parts(&p, path_body, false);
        walk(&mut stack, &steps);
        let mut r = text_of(&b, 0, keep);
        if stack.len() == 0 && (base_body > keep || from_root) {
            r.push('\\');
        } else {
            push_slashed(&mut r, &stack);
        }
        return r;
    }
    if from_root {
        let head = text_of(&b, 0, keep);
        return joined(head.as_str(), path);
    }
    let mut r = base.to_string();
    if !(b.len() == 0 || sep(b[b.len() - 1], false) || (b.len() == 2 && drive(&b))) {
        r.push('\\');
    }
    r.append(path);
    r
}

/// A text that cannot be a part of a prefix: not empty, and without separators,
/// colons and question marks.
pub open spec fn is_plain(x: Seq<char>) -> bool {
    x.len() > 0 && forall|i: int|
        0 <= i < x.len() ==> !is_sep(#[trigger] x[i]) && x[i] != ':' && x[i] != '?'
}

/// Plain texts make plain texts.
pub proof fn lemma_plain_concat()
    ensures
        forall|x: Seq<char>, y: Seq<char>|
            is_plain(x) && is_plain(y) ==> #[trigger] is_plain(x + y),
{
    assert forall|x: Seq<char>, y: Seq<char>| is_plain(x) && is_plain(y) implies #[trigger] is_plain(
        x + y,
    ) by {
        let s = x + y;
        assert forall|i: int| 0 <= i < s.len() implies !is_sep(#[trigger] s[i]) && s[i] != ':' && s[i]
            != '?' by {
            if i < x.len() {
                assert(s[i] == x[i]);
            } else {
                assert(s[i] == y[i - x.len()]);
            }
        }
    }
}

/// Behind `u`, a plain text holds no separator.
proof fn lemma_component_end_plain(u: Seq<char>, x: Seq<char>, from: int, verbatim: bool)
    requires
        is_plain(x),
        u.len() <= from <= u.len() + x.len(),
    ensures
        component_end(u + x, from, verbatim) == u.len() + x.len(),
    decreases u.len() + x.len() - from,
{
    if from < u.len() + x.len() {
        assert((u + x)[from] == x[from - u.len()]);
        lemma_component_end_plain(u, x, from + 1, verbatim);
    }
}

/// A component that starts in `u` ends in `u`, or at the end of the path.
proof fn lemma_component_end_same(
    u: Seq<char>,
    x: Seq<char>,
    y: Seq<char>,
    from: int,
    verbatim: bool,
)
    requires
        is_plain(x),
        is_plain(y),
        0 <= from <= u.len(),
    ensures
        from <= component_end(u + x, from, verbatim),
        ({
            let a = component_end(u + x, from, verbatim);
            let b = component_end(u + y, from, verbatim);
            (a < u.len() && a == b) || (a == u.len() + x.len() && b == u.len() + y.len())
        }),
    decreases u.len() - from,
{
    if from == u.len() {
        lemma_component_end_plain(u, x, from, verbatim);
        lemma_component_end_plain(u, y, from, verbatim);
    } else {
        assert((u + x)[from] == u[from]);
        assert((u + y)[from] == u[from]);
        if !separates(u[from], verbatim) {
            lemma_component_end_same(u, x, y, from + 1, verbatim);
        }
    }
}

/// Plain texts behind the same text leave it open in the same way whether the
/// whole has a prefix.
proof fn lemma_prefix_same(u: Seq<char>, x: Seq<char>, y: Seq<char>)
    requires
        is_plain(x),
        is_plain(y),
    ensures
        prefix_len(u + x) > 0 ==> prefix_len(u + y) > 0,
{
    let s = u + x;
    let t = u + y;
    assert forall|i: int| 0 <= i < u.len() implies s[i] == u[i] && t[i] == u[i] by {}
    assert forall|i: int| u.len() <= i < s.len() implies !is_sep(#[trigger] s[i]) && s[i] != ':'
        && s[i] != '?' by {
        assert(s[i] == x[i - u.len()]);
    }
    if prefix_len(s) > 0 {
        if is_verbatim(s) {
            assert(u.len() >= 4);
            assert(is_verbatim(t));
            lemma_component_end(t, 4, true);
            lemma_component_end(t, 8, true);
            lemma_component_end(t, component_end(t, 8, true) + 1, true);
        } else if s.len() >= 2 && is_sep(s[0]) && is_sep(s[1]) {
            assert(u.len() >= 2);
            assert(!is_verbatim(t)) by {
                if is_verbatim(t) {
                    assert forall|i: int| u.len() <= i < t.len() implies !is_sep(#[trigger] t[i]) by {
                        assert(t[i] == y[i - u.len()]);
                    }
                    assert(u.len() >= 4);
                    assert(is_verbatim(s));
                }
            }
            if s.len() >= 4 && s[2] == '.' && is_sep(s[3]) {
                assert(u.len() >= 4);
                lemma_component_end(t, 4, false);
            } else {
                lemma_component_end(t, 4, false);
                lemma_component_end_same(u, x, y, 2, false);
                let server = component_end(s, 2, false);
                lemma_component_end_same(u, x, y, server + 1, false);
            }
        } else {
            assert(has_drive(s));
            assert(u.len() >= 2);
            assert(!is_sep(u[0]));
        }
    }
}

/// Different plain texts behind the same text make different last components.
proof fn lemma_parts_same(
    u: Seq<char>,
    x: Seq<char>,
    y: Seq<char>,
    from: int,
    verbatim: bool,
)
    requires
        is_plain(x),
        is_plain(y),
        x.last() != '.',
        y.last() != '.',
        x != y,
        0 <= from <= u.len(),
    ensures
        ({
            let a = parts(u + x, from, verbatim);
            let b = parts(u + y, from, verbatim);
            &&& a.len() > 0
            &&& b.len() > 0
            &&& a.drop_last() == b.drop_last()
            &&& a.last() != b.last()
            &&& is_name(a.last())
            &&& is_name(b.last())
        }),
    decreases u.len() - from,
{
    let s = u + x;
    let t = u + y;
    let a = parts(s, from, verbatim);
    let b = parts(t, from, verbatim);
    let end = component_end(s, from, verbatim);
    lemma_component_end_same(u, x, y, from, verbatim);
    if end < u.len() {
        lemma_parts_same(u, x, y, end + 1, verbatim);
        if end > from {
            let p = s.subrange(from, end);
            assert(p == t.subrange(from, end));
            let ra = parts(s, end + 1, verbatim);
            let rb = parts(t, end + 1, verbatim);
            assert((seq![p] + ra).drop_last() == seq![p] + ra.drop_last());
            assert((seq![p] + rb).drop_last() == seq![p] + rb.drop_last());
        }
    } else {
        let p = s.subrange(from, s.len() as int);
        let q = t.subrange(from, t.len() as int);
        assert(a == seq![p]);
        assert(b == seq![q]);
        assert(a.drop_last() == b.drop_last());
        let n = u.len() - from;
        assert(p.skip(n) == x);
        assert(q.skip(n) == y);
        assert(p.last() == x.last());
        assert(q.last() == y.last());
    }
}

/// Different plain texts behind the same text give different paths.
pub proof fn lemma_join_injective(base: Seq<char>, u: Seq<char>, x: Seq<char>, y: Seq<char>)
    requires
        is_plain(x),
        is_plain(y),
        x.last() != '.',
        y.last() != '.',
        x != y,
    ensures
        join_of(base, u + x) != join_of(base, u + y),
{
    let s = u + x;
    let t = u + y;
    lemma_prefix_same(u, x, y);
    lemma_prefix_same(u, y, x);
    assert(s != t) by {
        if s == t {
            assert(s.skip(u.len() as int) == x);
            assert(t.skip(u.len() as int) == y);
        }
    }
    assert(is_sep(s[0]) == is_sep(t[0])) by {
        if u.len() > 0 {
            assert(s[0] == u[0] && t[0] == u[0]);
        } else {
            assert(s[0] == x[0] && t[0] == y[0]);
        }
    }
    if join_of(base, s) == join_of(base, t) {
        lemma_prefix_len(s);
        lemma_prefix_len(t);
        if prefix_len(s) > 0 {
        } else if is_verbatim(base) {
            let body = body_start(s);
            assert(body == body_start(t));
            assert(body <= u.len());
            lemma_parts_same(u, x, y, body, false);
            let head = base.take(prefix_len(base));
            let a = parts(s, body, false);
            let b = parts(t, body, false);
            let stack = if is_rooted(s) {
                Seq::empty()
            } else {
                parts(base, body_start(base), true)
            };
            let w = walked(stack, a.drop_last());
            assert(walked(stack, a) == w.push(a.last()));
            assert(walked(stack, b) == w.push(b.last()));
            assert(w.push(a.last()).drop_last() == w);
            assert(w.push(b.last()).drop_last() == w);
            let lead = head + slashed(w).push('\\');
            assert(head + slashed(w.push(a.last())) == lead + a.last());
            assert(head + slashed(w.push(b.last())) == lead + b.last());
            assert((lead + a.last()).skip(lead.len() as int) == a.last());
            assert((lead + b.last()).skip(lead.len() as int) == b.last());
        } else if is_sep(s[0]) {
            let head = base.take(prefix_len(base));
            assert((head + s).skip(head.len() as int) == s);
            assert((head + t).skip(head.len() as int) == t);
        } else if base.len() == 0 || is_sep(base.last()) || (has_drive(base) && base.len() == 2) {
            assert((base + s).skip(base.len() as int) == s);
            assert((base + t).skip(base.len() as int) == t);
        } else {
            let head = base.push('\\');
            assert((head + s).skip(head.len() as int) == s);
            assert((head + t).skip(head.len() as int) == t);
        }
    }
}

/// A component ends at the first separator.
proof fn lemma_end_at(s: Seq<char>, from: int, k: int, verbatim: bool)
    requires
        0 <= from <= k <= s.len(),
        forall|i: int| from <= i < k ==> !separates(#[trigger] s[i], verbatim),
        k < s.len() ==> separates(s[k], verbatim),
    ensures
        component_end(s, from, verbatim) == k,
    decreases k - from,
{
    if from < k {
        lemma_end_at(s, from + 1, k, verbatim);
    }
}

/// A plain text has no prefix, and it is a single component.
proof fn lemma_plain_parts(x: Seq<char>)
    requires
        is_plain(x),
    ensures
        prefix_len(x) == 0,
        !is_rooted(x),
        parts(x, 0, false) == seq![x],
{
    assert(!is_sep(x[0]));
    if x.len() >= 2 {
        assert(x[1] != ':');
    }
    lemma_end_at(x, 0, x.len() as int, false);
    assert(x.subrange(0, x.len() as int) == x);
}

/// Whether no backslash follows another from `from` on, and none is the last.
spec fn tidy(s: Seq<char>, from: int) -> bool {
    &&& s.len() > 0 ==> s.last() != '\\'
    &&& forall|i: int|
        from <= i < s.len() - 1 ==> !(#[trigger] s[i] == '\\' && s[i + 1] == '\\')
}

/// Whether a component is not empty and holds no backslash.
spec fn solid(part: Seq<char>) -> bool {
    part.len() > 0 && forall|i: int| 0 <= i < part.len() ==> #[trigger] part[i] != '\\'
}

proof fn lemma_parts_solid(s: Seq<char>, from: int, verbatim: bool)
    requires
        0 <= from,
    ensures
        forall|i: int|
            0 <= i < parts(s, from, verbatim).len() ==> solid(#[trigger] parts(s, from, verbatim)[i]),
    decreases s.len() - from,
{
    if from < s.len() {
        let end = component_end(s, from, verbatim);
        lemma_component_end(s, from, verbatim);
        if end < s.len() {
            lemma_parts_solid(s, end + 1, verbatim);
        }
        let p = s.subrange(from, end);
        assert forall|i: int| 0 <= i < p.len() implies #[trigger] p[i] != '\\' by {
            assert(p[i] == s[from + i]);
            assert(!separates(s[from + i], verbatim));
        }
        let rest = if end < s.len() {
            parts(s, end + 1, verbatim)
        } else {
            Seq::empty()
        };
        let all = parts(s, from, verbatim);
        assert forall|i: int| 0 <= i < all.len() implies solid(#[trigger] all[i]) by {
            if end == from {
                assert(all[i] == rest[i]);
            } else if i > 0 {
                assert(all[i] == rest[i - 1]);
            }
        }
    }
}

proof fn lemma_slashed_tidy(stack: Seq<Seq<char>>)
    requires
        forall|i: int| 0 <= i < stack.len() ==> solid(#[trigger] stack[i]),
    ensures
        tidy(slashed(stack), 0),
        stack.len() > 0 ==> slashed(stack).len() > 1 && slashed(stack)[0] == '\\',
    decreases stack.len(),
{
    if stack.len() > 0 {
        let before = stack.drop_last();
        let last = stack.last();
        assert(solid(stack[stack.len() - 1]));
        assert forall|i: int| 0 <= i < before.len() implies solid(#[trigger] before[i]) by {
            assert(before[i] == stack[i]);
        }
        lemma_slashed_tidy(before);
        let a = slashed(before);
        let s = a.push('\\') + last;
        assert(s == slashed(stack));
        assert(s.last() == last[last.len() - 1]);
        assert forall|i: int| 0 <= i < s.len() - 1 implies !(#[trigger] s[i] == '\\' && s[i + 1]
            == '\\') by {
            if i + 1 < a.len() {
                assert(s[i] == a[i] && s[i + 1] == a[i + 1]);
            } else if i + 1 == a.len() {
                assert(s[i] == a.last());
            } else if i == a.len() {
                assert(s[i + 1] == last[0]);
            } else {
                assert(s[i] == last[i - a.len() - 1]);
            }
        }
    }
}

proof fn lemma_slashed_cons(p: Seq<char>, rest: Seq<Seq<char>>)
    ensures
        slashed(seq![p] + rest) == seq!['\\'] + p + slashed(rest),
    decreases rest.len(),
{
    let all = seq![p] + rest;
    if rest.len() == 0 {
        assert(all.drop_last().len() == 0);
        assert(all.last() == p);
        assert(slashed(all.drop_last()) == Seq::<char>::empty());
        assert(slashed(all) == seq!['\\'] + p + slashed(rest));
    } else {
        assert(all.drop_last() == seq![p] + rest.drop_last());
        assert(all.last() == rest.last());
        lemma_slashed_cons(p, rest.drop_last());
        assert(slashed(all) == seq!['\\'] + p + slashed(rest));
    }
}

/// Tidy components, written with a backslash before each, are the text that they
/// were read from.
proof fn lemma_slashed_parts(s: Seq<char>, from: int)
    requires
        0 <= from < s.len(),
        s[from] != '\\',
        tidy(s, from),
    ensures
        slashed(parts(s, from, true)) == seq!['\\'] + s.skip(from),
    decreases s.len() - from,
{
    let end = component_end(s, from, true);
    lemma_component_end(s, from, true);
    let p = s.subrange(from, end);
    assert(end > from);
    if end < s.len() {
        assert(s[end] == '\\');
        assert(end + 1 < s.len());
        assert(s[end + 1] != '\\');
        let rest = parts(s, end + 1, true);
        lemma_slashed_parts(s, end + 1);
        lemma_slashed_cons(p, rest);
        assert(p + (seq!['\\'] + s.skip(end + 1)) == s.skip(from));
        assert(seq!['\\'] + p + (seq!['\\'] + s.skip(end + 1)) == seq!['\\'] + s.skip(from));
    } else {
        let none = Seq::<Seq<char>>::empty();
        lemma_slashed_cons(p, none);
        assert(parts(s, from, true) == seq![p] + none);
        assert(seq!['\\'] + p + slashed(none) == seq!['\\'] + s.skip(from));
    }
}

/// Behind the prefix of a verbatim base, written components make the prefix at
/// most longer, and it ends at one of their backslashes.
proof fn lemma_prefix_of_written(base: Seq<char>, r: Seq<char>)
    requires
        is_verbatim(base),
        r.len() > 1,
        r[0] == '\\',
        r[1] != '\\',
    ensures
        ({
            let head = base.take(prefix_len(base));
            let d = head + r;
            &&& is_verbatim(d)
            &&& 4 <= head.len() <= prefix_len(d) <= d.len()
            &&& prefix_len(d) < d.len() ==> d[prefix_len(d)] == '\\'
        }),
{
    lemma_prefix_len(base);
    lemma_component_end(base, 4, true);
    lemma_component_end(base, 8, true);
    let k = prefix_len(base);
    let head = base.take(k);
    let d = head + r;
    let unc = base.len() >= 8 && base[4] == 'U' && base[5] == 'N' && base[6] == 'C' && is_sep(
        base[7],
    );
    let server = component_end(base, 8, true);
    lemma_component_end(base, server + 1, true);
    assert(k >= 4);
    assert forall|i: int| 0 <= i < k implies d[i] == base[i] by {}
    assert(d[k] == '\\');
    assert(d[k + 1] == r[1]);
    lemma_prefix_len(d);
    lemma_component_end(d, 4, true);
    lemma_component_end(d, 8, true);
    if unc {
        assert(k >= 8);
        lemma_end_at(d, 8, server, true);
        lemma_component_end(d, server + 1, true);
        if k > server {
            lemma_end_at(d, server + 1, k, true);
        }
    } else if base.len() >= 6 && is_letter(base[4]) && base[5] == ':' && (base.len() == 6 || is_sep(
        base[6],
    )) {
        assert(k == 6);
        assert(d[4] == base[4] && d[5] == ':');
    } else {
        assert(k == component_end(base, 4, true));
        lemma_end_at(d, 4, k, true);
        let unc_d = d.len() >= 8 && d[4] == 'U' && d[5] == 'N' && d[6] == 'C' && is_sep(d[7]);
        if unc_d {
            assert(k == 7) by {
                if k > 7 {
                    assert(d[7] == base[7] && d[6] == base[6] && d[5] == base[5] && d[4] == base[4]);
                }
            }
            let sd = component_end(d, 8, true);
            lemma_component_end(d, sd + 1, true);
        } else if d.len() >= 6 && is_letter(d[4]) && d[5] == ':' && (d.len() == 6 || is_sep(d[6])) {
            assert(k == 6) by {
                if k > 6 {
                    assert(d[6] == base[6] && d[5] == base[5] && d[4] == base[4]);
                }
            }
        }
    }
}

/// A plain name behind a directory that was itself made by joining a plain name
/// is put behind it with a backslash.
pub proof fn lemma_join_nested(base: Seq<char>, x: Seq<char>, y: Seq<char>)
    requires
        is_plain(x),
        is_plain(y),
        x.last() != '.',
        y.last() != '.',
    ensures
        join_of(join_of(base, x), y) == join_of(base, x).push('\\') + y,
{
    let d = join_of(base, x);
    lemma_plain_parts(x);
    lemma_plain_parts(y);
    assert(!is_sep(x[x.len() - 1]) && x[x.len() - 1] != ':');
    assert(is_name(y)) by {
        assert(y[y.len() - 1] == y.last());
    }
    let none = Seq::<Seq<char>>::empty();
    if is_verbatim(base) {
        let stack = parts(base, body_start(base), true);
        let all = stack.push(x);
        let r = slashed(all);
        let head = base.take(prefix_len(base));
        assert(is_name(x)) by {
            assert(x[x.len() - 1] == x.last());
        }
        assert(seq![x].drop_last() == none);
        assert(walked(stack, none) == stack);
        assert(walked(stack, seq![x]) == stepped(walked(stack, seq![x].drop_last()), x));
        assert(d == head + r);
        lemma_prefix_len(base);
        lemma_parts_solid(base, body_start(base), true);
        assert(solid(x)) by {
            assert forall|i: int| 0 <= i < x.len() implies #[trigger] x[i] != '\\' by {
                assert(!is_sep(x[i]));
            }
        }
        assert forall|i: int| 0 <= i < all.len() implies solid(#[trigger] all[i]) by {
            if i < stack.len() {
                assert(all[i] == stack[i]);
            }
        }
        lemma_slashed_tidy(all);
        assert(!(r[0] == '\\' && r[1] == '\\'));
        lemma_prefix_of_written(base, r);
        let p = prefix_len(d);
        assert(tidy(d, p)) by {
            assert(d.last() == r.last());
            assert forall|i: int| p <= i < d.len() - 1 implies !(#[trigger] d[i] == '\\' && d[i + 1]
                == '\\') by {
                let k = i - head.len();
                assert(d[i] == r[k] && d[i + 1] == r[k + 1]);
            }
        }
        lemma_join_tidy(d, y);
    } else {
        assert(d.last() == x.last());
        if is_verbatim(d) {
            assert(base.len() == 3 && d == base.push('\\') + x);
            assert forall|i: int| 4 <= i < d.len() implies !is_sep(#[trigger] d[i]) && d[i] != ':' by {
                assert(d[i] == x[i - 4]);
            }
            lemma_end_at(d, 4, d.len() as int, true);
            assert(prefix_len(d) == d.len());
            lemma_join_tidy(d, y);
        } else {
            assert(!(has_drive(d) && d.len() == 2)) by {
                assert(d[d.len() - 1] == x.last());
            }
        }
    }
}

/// A plain name behind a tidy verbatim directory.
proof fn lemma_join_tidy(d: Seq<char>, y: Seq<char>)
    requires
        is_verbatim(d),
        is_plain(y),
        is_name(y),
        0 <= prefix_len(d) <= d.len(),
        prefix_len(d) < d.len() ==> d[prefix_len(d)] == '\\',
        tidy(d, prefix_len(d)),
    ensures
        join_of(d, y) == d.push('\\') + y,
{
    let p = prefix_len(d);
    let head = d.take(p);
    let stack = parts(d, body_start(d), true);
    let none = Seq::<Seq<char>>::empty();
    lemma_plain_parts(y);
    assert(seq![y].drop_last() == none);
    assert(walked(stack, none) == stack);
    assert(walked(stack, seq![y]) == stepped(walked(stack, seq![y].drop_last()), y));
    assert(stack.push(y).drop_last() == stack);
    assert(slashed(stack.push(y)) == slashed(stack).push('\\') + y);
    if p < d.len() {
        assert(p + 1 < d.len());
        assert(d[p + 1] != '\\');
        lemma_slashed_parts(d, p + 1);
        assert(seq!['\\'] + d.skip(p + 1) == d.skip(p));
    } else {
        assert(stack == none);
        assert(d.skip(p) == Seq::<char>::empty());
    }
    assert(slashed(stack) == d.skip(p));
    assert(head + (d.skip(p).push('\\') + y) == d.push('\\') + y);
}

// ---------------------------------------------------------------------------
// Laws of prefixes
// ---------------------------------------------------------------------------
/// A drive letter with its colon is a prefix, whatever follows.
pub proof fn law_prefix_of_a_drive(c: char, rest: Seq<char>)
    requires
        'a' <= c <= 'z' || 'A' <= c <= 'Z',
    ensures
        prefix_len(seq![c, ':'] + rest) == 2,
        !is_verbatim(seq![c, ':'] + rest),
{
    let s = seq![c, ':'] + rest;
    assert(s[0] == c && s[1] == ':');
}

/// A path that starts with neither a drive nor two separators has no prefix.
pub proof fn law_no_prefix(s: Seq<char>)
    requires
        s.len() >= 2 ==> !(s[1] == ':' && ('a' <= s[0] <= 'z' || 'A' <= s[0] <= 'Z')),
        s.len() >= 2 ==> !((s[0] == '\\' || s[0] == '/') && (s[1] == '\\' || s[1] == '/')),
    ensures
        prefix_len(s) == 0,
        !is_verbatim(s),
{
}

/// A server and its share are a prefix, up to the next separator.
pub proof fn law_prefix_of_a_share(server: Seq<char>, share: Seq<char>, rest: Seq<char>)
    requires
        server.len() > 0,
        share.len() > 0,
        forall|i: int|
            0 <= i < server.len() ==> (#[trigger] server[i]) != '\\' && server[i] != '/',
        forall|i: int| 0 <= i < share.len() ==> (#[trigger] share[i]) != '\\' && share[i] != '/',
        server != seq!['.'],
        server != seq!['?'],
        rest.len() > 0 ==> rest[0] == '\\' || rest[0] == '/',
    ensures
        ({
            let s = seq!['\\', '\\'] + server + seq!['\\'] + share + rest;
            prefix_len(s) == 3 + server.len() + share.len() && !is_verbatim(s)
        }),
{
    let s = seq!['\\', '\\'] + server + seq!['\\'] + share + rest;
    let n = server.len() as int;
    let m = share.len() as int;
    assert forall|i: int| 2 <= i < 2 + n implies s[i] == server[i - 2] by {}
    assert(s[2 + n] == '\\');
    assert forall|i: int| 3 + n <= i < 3 + n + m implies s[i] == share[i - 3 - n] by {}
    lemma_end_at(s, 2, 2 + n, false);
    lemma_end_at(s, 3 + n, 3 + n + m, false);
    if n == 1 {
        assert(server =~= seq![server[0]]);
    } else {
        assert(s[3] == server[1]);
    }
}

/// A verbatim drive is a prefix of six characters.
pub proof fn law_prefix_of_a_verbatim_drive(c: char, rest: Seq<char>)
    requires
        'a' <= c <= 'z' || 'A' <= c <= 'Z',
        rest.len() > 0 ==> rest[0] == '\\' || rest[0] == '/',
    ensures
        prefix_len(seq!['\\', '\\', '?', '\\', c, ':'] + rest) == 6,
        is_verbatim(seq!['\\', '\\', '?', '\\', c, ':'] + rest),
{
    let s = seq!['\\', '\\', '?', '\\', c, ':'] + rest;
    assert(s[4] == c && s[5] == ':');
}

// ---------------------------------------------------------------------------
// Laws of file names
// ---------------------------------------------------------------------------
proof fn lemma_start_at(s: Seq<char>, lo: int, hi: int, k: int, verbatim: bool)
    requires
        0 <= lo <= k <= hi <= s.len(),
        forall|i: int| k <= i < hi ==> !separates(#[trigger] s[i], verbatim),
        k > lo ==> separates(s[k - 1], verbatim),
    ensures
        component_start(s, lo, hi, verbatim) == k,
    decreases hi - k,
{
    if k < hi {
        lemma_start_at(s, lo, hi - 1, k, verbatim);
    }
}

/// What stands behind the last separator, or behind the prefix where there is
/// none, is the file name, unless it refers to a directory: behind `..` there is
/// none.
pub proof fn law_file_name_is_the_last_component(s: Seq<char>, k: int)
    requires
        prefix_len(s) <= k < s.len(),
        k > prefix_len(s) ==> s[k - 1] == '\\' || (s[k - 1] == '/' && !is_verbatim(s)),
        forall|i: int| k <= i < s.len() ==> (#[trigger] s[i]) != '\\' && s[i] != '/',
        s.skip(k) != seq!['.'],
    ensures
        s.skip(k) != seq!['.', '.'] ==> file_name_of(s) == Some(s.skip(k)),
        s.skip(k) == seq!['.', '.'] ==> file_name_of(s) is None,
{
    lemma_prefix_len(s);
    let lo = body_start(s);
    let hi = s.len() as int;
    let name = s.subrange(k, hi);
    assert(name == s.skip(k));
    assert(lo <= k);
    lemma_start_at(s, lo, hi, k, is_verbatim(s));
    if name.len() == 1 {
        assert(name =~= seq![name[0]]);
    }
    if name.len() == 2 {
        assert(name =~= seq![name[0], name[1]]);
    }
}

proof fn lemma_component_start_same(
    s: Seq<char>,
    t: Seq<char>,
    lo: int,
    hi: int,
    verbatim: bool,
)
    requires
        0 <= lo,
        hi <= s.len(),
        hi <= t.len(),
        forall|i: int| 0 <= i < hi ==> s[i] == t[i],
    ensures
        component_start(s, lo, hi, verbatim) == component_start(t, lo, hi, verbatim),
    decreases hi - lo,
{
    if hi > lo && !separates(s[hi - 1], verbatim) {
        lemma_component_start_same(s, t, lo, hi - 1, verbatim);
    }
}

proof fn lemma_last_name_same(s: Seq<char>, t: Seq<char>, lo: int, hi: int, verbatim: bool)
    requires
        0 <= lo,
        hi <= s.len(),
        hi <= t.len(),
        forall|i: int| 0 <= i < hi ==> s[i] == t[i],
    ensures
        last_name(s, lo, hi, verbatim) == last_name(t, lo, hi, verbatim),
    decreases hi - lo,
{
    if hi > lo {
        let start = component_start(s, lo, hi, verbatim);
        lemma_component_start_same(s, t, lo, hi, verbatim);
        lemma_component_start(s, lo, hi, verbatim);
        assert(s.subrange(start, hi) == t.subrange(start, hi));
        if lo < start {
            lemma_last_name_same(s, t, lo, start - 1, verbatim);
        }
    }
}

/// A separator at the end, or one with a dot behind it, does not change the file
/// name.
pub proof fn law_trailing_separator(s: Seq<char>)
    requires
        prefix_len(s) < s.len(),
        !is_verbatim(s),
        prefix_len(s.push('\\')) == prefix_len(s),
        prefix_len(s.push('\\').push('.')) == prefix_len(s),
        !is_verbatim(s.push('\\')),
        !is_verbatim(s.push('\\').push('.')),
    ensures
        file_name_of(s.push('\\')) == file_name_of(s),
        file_name_of(s.push('\\').push('.')) == file_name_of(s),
{
    lemma_prefix_len(s);
    let p = prefix_len(s);
    let t = s.push('\\');
    let u = t.push('.');
    let n = s.len() as int;
    let lo = body_start(s);
    assert(t[p] == s[p] && u[p] == s[p]);
    assert(body_start(t) == lo && body_start(u) == lo);
    assert(lo <= n);
    lemma_start_at(t, lo, n + 1, n + 1, false);
    assert(t.subrange(n + 1, n + 1).len() == 0);
    lemma_last_name_same(t, s, lo, n, false);
    lemma_start_at(u, lo, n + 2, n + 1, false);
    let dot = u.subrange(n + 1, n + 2);
    assert(dot.len() == 1 && dot[0] == '.');
    lemma_last_name_same(u, s, lo, n, false);
}

/// A bare prefix, with or without the root behind it, has no file name.
pub proof fn law_no_name_without_components(s: Seq<char>)
    requires
        s.len() == prefix_len(s) || (s.len() == prefix_len(s) + 1 && (s.last() == '\\' || s.last()
            == '/')),
    ensures
        file_name_of(s) is None,
{
}

// ---------------------------------------------------------------------------
// Laws of joining
// ---------------------------------------------------------------------------
/// A relative path is put behind the base with one backslash between them, and
/// without one where the base is empty, ends in a separator or is a bare drive.
pub proof fn law_join_relative(base: Seq<char>, path: Seq<char>)
    requires
        path.len() > 0 ==> path[0] != '\\' && path[0] != '/',
        path.len() >= 2 ==> !(path[1] == ':' && ('a' <= path[0] <= 'z' || 'A' <= path[0] <= 'Z')),
        !(base.len() >= 4 && base[0] == '\\' && base[1] == '\\' && base[2] == '?' && base[3]
            == '\\'),
    ensures
        ({
            let bare_drive = base.len() == 2 && base[1] == ':' && ('a' <= base[0] <= 'z' || 'A'
                <= base[0] <= 'Z');
            let close = base.len() == 0 || base.last() == '\\' || base.last() == '/'
                || bare_drive;
            &&& close ==> join_of(base, path) == base + path
            &&& !close ==> join_of(base, path) == base + seq!['\\'] + path
        }),
{
    law_no_prefix(path);
    assert(base.push('\\') == base + seq!['\\']);
}

/// A path with a drive, or to a share, stands for itself, whatever the base is.
pub proof fn law_join_absolute(base: Seq<char>, path: Seq<char>)
    requires
        prefix_len(path) > 0,
    ensures
        join_of(base, path) == path,
{
}

/// A path from the root keeps the prefix of the base and drops the rest of it.
pub proof fn law_join_rooted(base: Seq<char>, path: Seq<char>)
    requires
        path.len() > 0,
        path[0] == '\\' || path[0] == '/',
        path.len() >= 2 ==> path[1] != '\\' && path[1] != '/' && path[1] != ':',
        !(base.len() >= 4 && base[0] == '\\' && base[1] == '\\' && base[2] == '?' && base[3]
            == '\\'),
    ensures
        join_of(base, path) == base.take(prefix_len(base)) + path,
{
    law_no_prefix(path);
}

/// The components of a text without separators: the text itself, or none where it
/// is empty.
pub proof fn law_one_component(s: Seq<char>, verbatim: bool)
    requires
        forall|i: int| 0 <= i < s.len() ==> (#[trigger] s[i]) != '\\' && s[i] != '/',
    ensures
        s.len() > 0 ==> parts(s, 0, verbatim) == seq![s],
        s.len() == 0 ==> parts(s, 0, verbatim).len() == 0,
{
    if s.len() > 0 {
        lemma_end_at(s, 0, s.len() as int, verbatim);
        assert(s.subrange(0, s.len() as int) == s);
    }
}

proof fn lemma_component_end_shift(u: Seq<char>, b: Seq<char>, from: int, verbatim: bool)
    requires
        0 <= from <= b.len(),
    ensures
        component_end(u + b, u.len() + from, verbatim) == u.len() + component_end(
            b,
            from,
            verbatim,
        ),
    decreases b.len() - from,
{
    lemma_component_end(b, from, verbatim);
    let k = component_end(b, from, verbatim);
    assert forall|i: int| u.len() + from <= i < u.len() + k implies !separates(
        #[trigger] (u + b)[i],
        verbatim,
    ) by {
        assert((u + b)[i] == b[i - u.len()]);
    }
    lemma_end_at(u + b, u.len() + from, u.len() + k, verbatim);
}

proof fn lemma_parts_shift(u: Seq<char>, b: Seq<char>, from: int, verbatim: bool)
    requires
        0 <= from <= b.len(),
    ensures
        parts(u + b, u.len() + from, verbatim) == parts(b, from, verbatim),
    decreases b.len() - from,
{
    if from < b.len() {
        let end = component_end(b, from, verbatim);
        lemma_component_end(b, from, verbatim);
        lemma_component_end_shift(u, b, from, verbatim);
        assert((u + b).subrange(u.len() + from, u.len() + end) == b.subrange(from, end));
        if end < b.len() {
            lemma_parts_shift(u, b, end + 1, verbatim);
        }
    }
}

/// The components on both sides of a separator are those of the whole.
pub proof fn law_components_add_up(
    a: Seq<char>,
    c: char,
    b: Seq<char>,
    from: int,
    verbatim: bool,
)
    requires
        c == '\\' || (c == '/' && !verbatim),
        0 <= from <= a.len(),
    ensures
        parts(a.push(c) + b, from, verbatim) == parts(a, from, verbatim) + parts(b, 0, verbatim),
    decreases a.len() - from,
{
    let s = a.push(c) + b;
    let n = a.len() as int;
    assert(s[n] == c);
    lemma_parts_shift(a.push(c), b, 0, verbatim);
    let tail = parts(b, 0, verbatim);
    assert(parts(s, n + 1, verbatim) == tail);
    if from == n {
        lemma_end_at(s, n, n, verbatim);
        assert(parts(a, n, verbatim) + tail == tail);
    } else {
        let end = component_end(a, from, verbatim);
        lemma_component_end(a, from, verbatim);
        assert forall|i: int| from <= i < end implies !separates(#[trigger] s[i], verbatim) by {
            assert(s[i] == a[i]);
        }
        if end < n {
            assert(s[end] == a[end]);
        }
        lemma_end_at(s, from, end, verbatim);
        assert(s.subrange(from, end) == a.subrange(from, end));
        if end < n {
            law_components_add_up(a, c, b, end + 1, verbatim);
            let rest = parts(a, end + 1, verbatim);
            assert(seq![a.subrange(from, end)] + (rest + tail) == seq![a.subrange(from, end)] + rest
                + tail);
        } else {
            let none = Seq::<Seq<char>>::empty();
            assert(seq![a.subrange(from, end)] + none + tail == seq![a.subrange(from, end)] + tail);
        }
    }
}

/// One component leads down where it is a name, nowhere where it is a dot, and
/// back over a name where it is two dots.
pub proof fn law_one_step(stack: Seq<Seq<char>>, part: Seq<char>, name: Seq<char>)
    requires
        name != seq!['.'],
        name != seq!['.', '.'],
    ensures
        part != seq!['.'] && part != seq!['.', '.'] ==> walked(stack, seq![part]) == stack.push(
            part,
        ),
        walked(stack, seq![seq!['.']]) == stack,
        walked(stack.push(name), seq![seq!['.', '.']]) == stack,
        walked(Seq::empty(), seq![seq!['.', '.']]).len() == 0,
{
    let none = Seq::<Seq<char>>::empty();
    let dot = seq!['.'];
    let dots = seq!['.', '.'];
    assert(seq![part].drop_last() == none);
    assert(seq![dot].drop_last() == none);
    assert(seq![dots].drop_last() == none);
    assert(walked(stack, none) == stack);
    assert(walked(none, none) == none);
    assert(walked(stack.push(name), none) == stack.push(name));
    lemma_is_name(part);
    lemma_is_name(name);
    lemma_is_name(dot);
    lemma_is_name(dots);
    assert(stack.push(name).drop_last() == stack);
}

proof fn lemma_is_name(part: Seq<char>)
    ensures
        is_name(part) <==> part != seq!['.'] && part != seq!['.', '.'],
{
    if part.len() == 1 {
        assert(part =~= seq![part[0]]);
    }
    if part.len() == 2 {
        assert(part =~= seq![part[0], part[1]]);
    }
}

/// Walking a path in two parts leads where walking it at once leads.
pub proof fn law_walks_add_up(stack: Seq<Seq<char>>, a: Seq<Seq<char>>, b: Seq<Seq<char>>)
    ensures
        walked(stack, a + b) == walked(walked(stack, a), b),
    decreases b.len(),
{
    if b.len() == 0 {
        assert(a + b == a);
    } else {
        law_walks_add_up(stack, a, b.drop_last());
        assert((a + b).drop_last() == a + b.drop_last());
        assert((a + b).last() == b.last());
    }
}

/// Behind a verbatim drive, a name is put behind a base without doubled or
/// trailing backslashes.
pub proof fn law_join_verbatim(c: char, rest: Seq<char>, y: Seq<char>)
    requires
        'a' <= c <= 'z' || 'A' <= c <= 'Z',
        rest.len() > 0 ==> rest[0] == '\\' && rest.last() != '\\',
        forall|i: int|
            0 <= i < rest.len() - 1 ==> !(#[trigger] rest[i] == '\\' && rest[i + 1] == '\\'),
        y.len() > 0,
        forall|i: int|
            0 <= i < y.len() ==> (#[trigger] y[i]) != '\\' && y[i] != '/' && y[i] != ':' && y[i]
                != '?',
        y != seq!['.'],
        y != seq!['.', '.'],
    ensures
        ({
            let base = seq!['\\', '\\', '?', '\\', c, ':'] + rest;
            join_of(base, y) == base + seq!['\\'] + y
        }),
{
    let base = seq!['\\', '\\', '?', '\\', c, ':'] + rest;
    law_prefix_of_a_verbatim_drive(c, rest);
    assert(is_plain(y));
    lemma_is_name(y);
    assert forall|i: int| 6 <= i < base.len() implies base[i] == rest[i - 6] by {}
    assert(tidy(base, 6)) by {
        if rest.len() > 0 {
            assert(base.last() == rest.last());
        }
        assert forall|i: int| 6 <= i < base.len() - 1 implies !(#[trigger] base[i] == '\\'
            && base[i + 1] == '\\') by {
            assert(base[i] == rest[i - 6] && base[i + 1] == rest[i - 6 + 1]);
        }
    }
    lemma_join_tidy(base, y);
    assert(base.push('\\') == base + seq!['\\']);
}

/// Behind a verbatim drive, two dots lead back over the last name.
pub proof fn law_join_verbatim_parent(c: char, rest: Seq<char>, x: Seq<char>, y: Seq<char>)
    requires
        'a' <= c <= 'z' || 'A' <= c <= 'Z',
        rest.len() > 0 ==> rest[0] == '\\',
        x.len() > 0,
        forall|i: int| 0 <= i < x.len() ==> (#[trigger] x[i]) != '\\' && x[i] != '/',
        x != seq!['.'],
        x != seq!['.', '.'],
        y.len() > 0,
        forall|i: int|
            0 <= i < y.len() ==> (#[trigger] y[i]) != '\\' && y[i] != '/' && y[i] != ':' && y[i]
                != '?',
        y != seq!['.'],
        y != seq!['.', '.'],
    ensures
        ({
            let base = seq!['\\', '\\', '?', '\\', c, ':'] + rest;
            join_of(base + seq!['\\'] + x, seq!['.', '.', '\\'] + y) == join_of(base, y)
        }),
{
    let lead = seq!['\\', '\\', '?', '\\', c, ':'];
    let base = lead + rest;
    let d = base + seq!['\\'] + x;
    let dots = seq!['.', '.'];
    let p = dots + seq!['\\'] + y;
    assert(p == seq!['.', '.', '\\'] + y);
    assert(d == lead + (rest + seq!['\\'] + x));
    law_prefix_of_a_verbatim_drive(c, rest);
    assert((rest + seq!['\\'] + x)[0] == '\\') by {
        if rest.len() > 0 {
            assert((rest + seq!['\\'] + x)[0] == rest[0]);
        }
    }
    law_prefix_of_a_verbatim_drive(c, rest + seq!['\\'] + x);
    assert(p[0] == '.' && p[1] == '.');
    law_no_prefix(p);
    assert(is_plain(y));
    lemma_plain_parts(y);
    // the components of the base
    law_one_component(x, true);
    assert(base.push('\\') + x == d);
    let below = parts(base, body_start(base), true);
    assert(d[6] == '\\');
    assert(body_start(d) == 7);
    assert(parts(d, 7, true) == below.push(x)) by {
        if rest.len() > 0 {
            assert(base[6] == rest[0]);
            law_components_add_up(base, '\\', x, 7, true);
            assert(below + seq![x] == below.push(x));
        } else {
            assert(base == lead);
            assert(below == Seq::<Seq<char>>::empty());
            lemma_parts_shift(base.push('\\'), x, 0, true);
            assert(seq![x] == below.push(x));
        }
    }
    // the components of the path
    law_one_component(dots, false);
    assert(dots.push('\\') + y == p);
    law_components_add_up(dots, '\\', y, 0, false);
    assert(parts(p, 0, false) == seq![dots] + seq![y]);
    assert(body_start(p) == 0);
    // where they lead
    law_walks_add_up(below.push(x), seq![dots], seq![y]);
    law_one_step(below, y, x);
    assert(walked(below.push(x), seq![dots] + seq![y]) == below.push(y));
    assert(walked(below, seq![y]) == below.push(y));
    assert(d.take(6) == lead);
    assert(base.take(6) == lead);
}

/// A verbatim server and its share are a prefix, up to the next backslash.
pub proof fn law_prefix_of_a_verbatim_share(server: Seq<char>, share: Seq<char>, rest: Seq<char>)
    requires
        server.len() > 0,
        share.len() > 0,
        forall|i: int| 0 <= i < server.len() ==> (#[trigger] server[i]) != '\\',
        forall|i: int| 0 <= i < share.len() ==> (#[trigger] share[i]) != '\\',
        rest.len() > 0 ==> rest[0] == '\\',
    ensures
        ({
            let lead = seq!['\\', '\\', '?', '\\', 'U', 'N', 'C', '\\'];
            let s = lead + server + seq!['\\'] + share + rest;
            prefix_len(s) == 9 + server.len() + share.len() && is_verbatim(s)
        }),
{
    let lead = seq!['\\', '\\', '?', '\\', 'U', 'N', 'C', '\\'];
    let s = lead + server + seq!['\\'] + share + rest;
    let n = server.len() as int;
    let m = share.len() as int;
    assert forall|i: int| 0 <= i < 8 implies s[i] == lead[i] by {}
    assert forall|i: int| 8 <= i < 8 + n implies s[i] == server[i - 8] by {}
    assert(s[8 + n] == '\\');
    assert forall|i: int| 9 + n <= i < 9 + n + m implies s[i] == share[i - 9 - n] by {}
    lemma_end_at(s, 8, 8 + n, true);
    lemma_end_at(s, 9 + n, 9 + n + m, true);
}

/// A device is a prefix, up to the next separator.
pub proof fn law_prefix_of_a_device(name: Seq<char>, rest: Seq<char>)
    requires
        forall|i: int| 0 <= i < name.len() ==> (#[trigger] name[i]) != '\\' && name[i] != '/',
        rest.len() > 0 ==> rest[0] == '\\' || rest[0] == '/',
    ensures
        prefix_len(seq!['\\', '\\', '.', '\\'] + name + rest) == 4 + name.len(),
        !is_verbatim(seq!['\\', '\\', '.', '\\'] + name + rest),
{
    let lead = seq!['\\', '\\', '.', '\\'];
    let s = lead + name + rest;
    let n = name.len() as int;
    assert forall|i: int| 0 <= i < 4 implies s[i] == lead[i] by {}
    assert forall|i: int| 4 <= i < 4 + n implies s[i] == name[i - 4] by {}
    lemma_end_at(s, 4, 4 + n, false);
}

/// Any other verbatim name is a prefix, up to the next backslash.
pub proof fn law_prefix_of_a_verbatim_name(name: Seq<char>, rest: Seq<char>)
    requires
        forall|i: int| 0 <= i < name.len() ==> (#[trigger] name[i]) != '\\' && name[i] != '/',
        rest.len() > 0 ==> rest[0] == '\\',
        name != seq!['U', 'N', 'C'],
        !(name.len() == 2 && name[1] == ':' && ('a' <= name[0] <= 'z' || 'A' <= name[0] <= 'Z')),
    ensures
        prefix_len(seq!['\\', '\\', '?', '\\'] + name + rest) == 4 + name.len(),
        is_verbatim(seq!['\\', '\\', '?', '\\'] + name + rest),
{
    let lead = seq!['\\', '\\', '?', '\\'];
    let s = lead + name + rest;
    let n = name.len() as int;
    assert forall|i: int| 0 <= i < 4 implies s[i] == lead[i] by {}
    assert forall|i: int| 4 <= i < 4 + n implies s[i] == name[i - 4] by {}
    assert forall|i: int| 4 + n <= i < s.len() implies s[i] == rest[i - 4 - n] by {}
    lemma_end_at(s, 4, 4 + n, true);
    if n == 3 {
        assert(name =~= seq![name[0], name[1], name[2]]);
    }
}

/// Behind a verbatim drive, a path from the root drops all of the base but the
/// drive.
pub proof fn law_join_verbatim_rooted(c: char, rest: Seq<char>, y: Seq<char>)
    requires
        'a' <= c <= 'z' || 'A' <= c <= 'Z',
        rest.len() > 0 ==> rest[0] == '\\',
        y.len() > 0,
        forall|i: int|
            0 <= i < y.len() ==> (#[trigger] y[i]) != '\\' && y[i] != '/' && y[i] != ':',
        y != seq!['.'],
        y != seq!['.', '.'],
    ensures
        ({
            let lead = seq!['\\', '\\', '?', '\\', c, ':'];
            &&& join_of(lead + rest, seq!['\\'] + y) == lead + seq!['\\'] + y
            &&& join_of(lead + rest, seq!['\\']) == lead + seq!['\\']
        }),
{
    let lead = seq!['\\', '\\', '?', '\\', c, ':'];
    let base = lead + rest;
    let none = Seq::<Seq<char>>::empty();
    let path = seq!['\\'] + y;
    law_prefix_of_a_verbatim_drive(c, rest);
    assert(base.take(6) == lead);
    assert(path[0] == '\\' && path[1] == y[0]);
    law_no_prefix(path);
    law_one_component(y, false);
    lemma_parts_shift(seq!['\\'], y, 0, false);
    assert(parts(path, 1, false) == seq![y]);
    law_one_step(none, y, y);
    assert(walked(none, seq![y]) == seq![y]);
    assert(slashed(seq![y]) == seq!['\\'] + y) by {
        assert(seq![y].drop_last() == none);
        assert(slashed(none).len() == 0);
        assert(slashed(none).push('\\') + y == seq!['\\'] + y);
    }
    assert(lead + (seq!['\\'] + y) == lead + seq!['\\'] + y);
    let root = seq!['\\'];
    law_no_prefix(root);
    assert(parts(root, 1, false) == none);
    assert(walked(none, none) == none);
    assert(lead.push('\\') == lead + seq!['\\']);
}

/// Behind a verbatim drive, two dots behind its only name lead to the root.
pub proof fn law_join_verbatim_to_the_root(c: char, x: Seq<char>)
    requires
        'a' <= c <= 'z' || 'A' <= c <= 'Z',
        x.len() > 0,
        forall|i: int| 0 <= i < x.len() ==> (#[trigger] x[i]) != '\\' && x[i] != '/',
        x != seq!['.'],
        x != seq!['.', '.'],
    ensures
        ({
            let lead = seq!['\\', '\\', '?', '\\', c, ':'];
            &&& join_of(lead + seq!['\\'] + x, seq!['.', '.']) == lead + seq!['\\']
            &&& join_of(lead, seq!['.']) == lead
        }),
{
    let lead = seq!['\\', '\\', '?', '\\', c, ':'];
    let rest = seq!['\\'] + x;
    let base = lead + rest;
    let none = Seq::<Seq<char>>::empty();
    let dots = seq!['.', '.'];
    let dot = seq!['.'];
    assert(lead + seq!['\\'] + x == base);
    law_prefix_of_a_verbatim_drive(c, rest);
    assert(base.take(6) == lead);
    assert(base[6] == '\\');
    law_one_component(x, true);
    assert((lead + seq!['\\']) + x == base);
    lemma_parts_shift(lead + seq!['\\'], x, 0, true);
    assert(parts(base, 7, true) == seq![x]);
    law_no_prefix(dots);
    law_one_component(dots, false);
    law_one_step(none, x, x);
    assert(none.push(x) == seq![x]);
    assert(walked(seq![x], seq![dots]) == none);
    assert(lead.push('\\') == lead + seq!['\\']);
    law_prefix_of_a_verbatim_drive(c, Seq::empty());
    assert(lead + Seq::<char>::empty() == lead);
    assert(lead.take(6) == lead);
    law_no_prefix(dot);
    law_one_component(dot, false);
    assert(parts(lead, 6, true) == none);
    assert(walked(none, seq![dot]) == none);
    assert(lead + slashed(none) == lead);
}

} // verus!
