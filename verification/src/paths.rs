//! Unix paths, taken apart by their text alone.
use vstd::prelude::*;
use vstd::string::*;
use vstd::utf8::*;

use crate::text;

verus! {

/// The end of the piece that starts at `i`: the next slash, or the end.
pub open spec fn piece_end(p: Seq<char>, i: int) -> int
    decreases p.len() - i,
{
    if i < 0 || i >= p.len() || p[i] == '/' {
        i
    } else {
        piece_end(p, i + 1)
    }
}

proof fn lemma_piece_end(p: Seq<char>, i: int)
    requires
        0 <= i <= p.len(),
    ensures
        i <= piece_end(p, i) <= p.len(),
        forall|k: int| i <= k < piece_end(p, i) ==> p[k] != '/',
        piece_end(p, i) < p.len() ==> p[piece_end(p, i)] == '/',
        i < p.len() && p[i] != '/' ==> i < piece_end(p, i),
    decreases p.len() - i,
{
    if i < p.len() && p[i] != '/' {
        lemma_piece_end(p, i + 1);
    }
}

/// Where the components of `p` from position `i` on start and end: what stands
/// between slashes, without the empty pieces and without `.` anywhere but at
/// the very start.
pub open spec fn spans_from(p: Seq<char>, i: int) -> Seq<(int, int)>
    decreases p.len() - i,
{
    if i < 0 || i >= p.len() {
        Seq::empty()
    } else if p[i] == '/' {
        spans_from(p, i + 1)
    } else {
        let end = piece_end(p, i);
        if end <= i || end > p.len() {
            Seq::empty()
        } else if p.subrange(i, end) == seq!['.'] && i > 0 {
            spans_from(p, end)
        } else {
            seq![(i, end)] + spans_from(p, end)
        }
    }
}

/// Whether the path starts at the root.
pub open spec fn is_absolute(p: Seq<char>) -> bool {
    p.len() > 0 && p[0] == '/'
}

/// Where the components of a path start and end. The root is the component
/// `/`; `.` is one only where the path starts with it.
pub open spec fn component_spans(p: Seq<char>) -> Seq<(int, int)> {
    if is_absolute(p) {
        seq![(0int, 1int)] + spans_from(p, 1)
    } else {
        spans_from(p, 0)
    }
}

/// The components of a path.
pub open spec fn components(p: Seq<char>) -> Seq<Seq<char>> {
    component_spans(p).map_values(|s: (int, int)| p.subrange(s.0, s.1))
}

/// The component that leads to the parent directory.
pub open spec fn parent_dir() -> Seq<char> {
    seq!['.', '.']
}

/// Whether a path stays inside the directory it is joined to: it is relative
/// and no component of it is `..`.
pub open spec fn stays_inside(p: Seq<char>) -> bool {
    !is_absolute(p) && !components(p).contains(parent_dir())
}

/// Whether a component names an entry of a directory, which the root, `.`
/// and `..` do not.
pub open spec fn is_name(c: Seq<char>) -> bool {
    c != seq!['/'] && c != seq!['.'] && c != parent_dir()
}

/// The last component, where it names an entry of a directory.
pub open spec fn file_name_of(p: Seq<char>) -> Option<Seq<char>> {
    let cs = components(p);
    if cs.len() > 0 && is_name(cs.last()) {
        Some(cs.last())
    } else {
        None
    }
}

/// `rel` taken relative to `base`; an absolute `rel` stands for itself.
pub open spec fn joined_path(base: Seq<char>, rel: Seq<char>) -> Seq<char> {
    if is_absolute(rel) {
        rel
    } else if base.len() == 0 || base.last() == '/' {
        base + rel
    } else {
        base.push('/') + rel
    }
}

/// A stretch of a path: the characters from `start` up to `end`.
#[derive(Clone, Copy, PartialEq, Eq, Structural, Debug)]
pub struct Span {
    pub start: usize,
    pub end: usize,
}

impl Span {
    /// The characters of `p` in this stretch.
    pub open spec fn of(self, p: Seq<char>) -> Seq<char> {
        p.subrange(self.start as int, self.end as int)
    }
}

/// The stretches of `p` that hold its components.
pub open spec fn spans_of(spans: Seq<Span>, p: Seq<char>) -> Seq<Seq<char>> {
    spans.map_values(|s: Span| s.of(p))
}

/// The bounds of some stretches.
pub open spec fn bounds(spans: Seq<Span>) -> Seq<(int, int)> {
    spans.map_values(|s: Span| (s.start as int, s.end as int))
}

/// Takes a path apart into its components.
pub fn split_components(p: &Vec<char>) -> (spans: Vec<Span>)
    ensures
        bounds(spans@) == component_spans(p@),
        spans_of(spans@, p@) == components(p@),
        forall|k: int|
            0 <= k < spans@.len() ==> (#[trigger] spans@[k]).start <= spans@[k].end
                <= p@.len(),
{
    let mut spans: Vec<Span> = Vec::new();
    let mut i: usize = 0;
    if p.len() > 0 && p[0] == '/' {
        spans.push(Span { start: 0, end: 1 });
        i = 1;
    }
    assert(bounds(spans@) + spans_from(p@, i as int) =~= component_spans(p@));
    while i < p.len()
        invariant
            i <= p@.len(),
            bounds(spans@) + spans_from(p@, i as int) == component_spans(p@),
            forall|k: int|
                0 <= k < spans@.len() ==> (#[trigger] spans@[k]).start <= spans@[k].end
                    <= p@.len(),
        decreases p@.len() - i,
    {
        if p[i] == '/' {
            i = i + 1;
            continue;
        }
        let start = i;
        while i < p.len() && p[i] != '/'
            invariant
                start <= i <= p@.len(),
                start < p@.len(),
                p@[start as int] != '/',
                piece_end(p@, start as int) == piece_end(p@, i as int),
            decreases p@.len() - i,
        {
            i = i + 1;
        }
        proof {
            lemma_piece_end(p@, start as int);
            assert(piece_end(p@, i as int) == i);
        }
        if i - start == 1 && p[start] == '.' && start > 0 {
            assert(p@.subrange(start as int, i as int) =~= seq!['.']);
        } else {
            let ghost before = spans@;
            spans.push(Span { start, end: i });
            proof {
                let piece = p@.subrange(start as int, i as int);
                if piece == seq!['.'] {
                    assert(piece.len() == 1 && piece[0] == '.');
                }
                assert(bounds(spans@) =~= bounds(before).push((start as int, i as int)));
                assert(bounds(spans@) + spans_from(p@, i as int) =~= bounds(before) + spans_from(
                    p@,
                    start as int,
                ));
            }
        }
    }
    assert(bounds(spans@) + spans_from(p@, i as int) =~= bounds(spans@));
    proof {
        assert(spans_of(spans@, p@).len() == components(p@).len());
        assert forall|k: int| 0 <= k < spans@.len() implies (#[trigger] spans_of(spans@, p@)[k])
            == components(p@)[k] by {
            assert(bounds(spans@)[k] == (spans@[k].start as int, spans@[k].end as int));
        }
        assert(spans_of(spans@, p@) =~= components(p@));
    }
    spans
}

/// Whether the stretch holds exactly `..`.
fn is_parent(p: &Vec<char>, s: Span) -> (yes: bool)
    requires
        s.start <= s.end <= p@.len(),
    ensures
        yes == (s.of(p@) == parent_dir()),
{
    if s.end - s.start == 2 && p[s.start] == '.' && p[s.start + 1] == '.' {
        assert(s.of(p@) =~= parent_dir());
        true
    } else {
        proof {
            if s.of(p@) == parent_dir() {
                assert(s.of(p@).len() == 2);
                assert(s.of(p@)[0] == p@[s.start as int]);
                assert(s.of(p@)[1] == p@[s.start + 1]);
            }
        }
        false
    }
}

/// Whether the path is relative and free of `..`.
pub fn inside(p: &Vec<char>) -> (yes: bool)
    ensures
        yes == stays_inside(p@),
{
    if p.len() > 0 && p[0] == '/' {
        return false;
    }
    let spans = split_components(p);
    let mut i: usize = 0;
    while i < spans.len()
        invariant
            i <= spans@.len(),
            spans_of(spans@, p@) == components(p@),
            !is_absolute(p@),
            forall|k: int|
                0 <= k < spans@.len() ==> (#[trigger] spans@[k]).start <= spans@[k].end
                    <= p@.len(),
            forall|k: int| 0 <= k < i ==> (#[trigger] spans@[k]).of(p@) != parent_dir(),
        decreases spans@.len() - i,
    {
        if is_parent(p, spans[i]) {
            assert(components(p@)[i as int] == parent_dir());
            return false;
        }
        i = i + 1;
    }
    proof {
        if components(p@).contains(parent_dir()) {
            let k = choose|k: int| 0 <= k < components(p@).len() && components(p@)[k] == parent_dir();
            assert(spans@[k].of(p@) == parent_dir());
        }
    }
    true
}

/// Whether a stretch of a path names an entry of a directory.
fn names_entry(p: &Vec<char>, s: Span) -> (yes: bool)
    requires
        s.start <= s.end <= p@.len(),
    ensures
        yes == is_name(s.of(p@)),
{
    if is_parent(p, s) {
        return false;
    }
    if s.end - s.start == 1 && (p[s.start] == '.' || p[s.start] == '/') {
        assert(s.of(p@) =~= seq![p@[s.start as int]]);
        return false;
    }
    proof {
        assert(s.of(p@).len() == s.end - s.start);
        if s.of(p@) == seq!['.'] || s.of(p@) == seq!['/'] {
            assert(s.of(p@).len() == 1);
            assert(s.of(p@)[0] == p@[s.start as int]);
        }
    }
    true
}

/// The last component of `path`, where it names an entry of a directory.
pub fn file_name(path: &str) -> (name: Option<String>)
    ensures
        match name {
            Some(n) => file_name_of(path@) == Some(n@),
            None => file_name_of(path@) is None,
        },
{
    let p = text::chars_of(path);
    let spans = split_components(&p);
    if spans.len() == 0 {
        assert(components(path@).len() == 0);
        return None;
    }
    let last = spans[spans.len() - 1];
    assert(components(path@).last() == last.of(p@));
    if names_entry(&p, last) {
        Some(text::text_of(p.as_slice(), last.start, last.end))
    } else {
        None
    }
}

/// Joins `rel` to `base`; an absolute `rel` replaces it.
pub fn join(base: &str, rel: &str) -> (path: String)
    ensures
        path@ == joined_path(base@, rel@),
{
    let b = text::chars_of(base);
    let r = text::chars_of(rel);
    if r.len() > 0 && r[0] == '/' {
        return rel.to_owned();
    }
    let mut path = base.to_owned();
    if b.len() > 0 && b[b.len() - 1] != '/' {
        path.push('/');
    }
    path.append(rel);
    path
}

/// Each byte as the character with its code.
pub open spec fn widened(bytes: Seq<u8>) -> Seq<char> {
    bytes.map_values(|b: u8| b as char)
}

/// Each byte as the character with its code, so that a path that is not
/// UTF-8 can be taken apart too.
pub fn widen(bytes: &[u8]) -> (out: Vec<char>)
    ensures
        out@ == widened(bytes@),
{
    let mut out: Vec<char> = Vec::new();
    let mut i: usize = 0;
    while i < bytes.len()
        invariant
            i <= bytes@.len(),
            out@ == widened(bytes@.take(i as int)),
        decreases bytes@.len() - i,
    {
        out.push(bytes[i] as char);
        assert(bytes@.take(i + 1) =~= bytes@.take(i as int).push(bytes@[i as int]));
        assert(widened(bytes@.take(i + 1)) =~= widened(bytes@.take(i as int)).push(
            bytes@[i as int] as char,
        ));
        i = i + 1;
    }
    assert(bytes@.take(i as int) =~= bytes@);
    out
}

/// Whether two paths have the same components.
pub fn same_components(a: &Vec<char>, b: &Vec<char>) -> (same: bool)
    ensures
        same == (components(a@) == components(b@)),
{
    let x = split_components(a);
    let y = split_components(b);
    if x.len() != y.len() {
        assert(components(a@).len() != components(b@).len());
        return false;
    }
    let mut i: usize = 0;
    while i < x.len()
        invariant
            i <= x@.len(),
            x@.len() == y@.len(),
            spans_of(x@, a@) == components(a@),
            spans_of(y@, b@) == components(b@),
            forall|k: int|
                0 <= k < x@.len() ==> (#[trigger] x@[k]).start <= x@[k].end <= a@.len(),
            forall|k: int|
                0 <= k < y@.len() ==> (#[trigger] y@[k]).start <= y@[k].end <= b@.len(),
            forall|k: int| 0 <= k < i ==> (#[trigger] components(a@)[k]) == components(b@)[k],
        decreases x@.len() - i,
    {
        if !same_stretch(a, x[i], b, y[i]) {
            assert(components(a@)[i as int] != components(b@)[i as int]);
            return false;
        }
        assert(components(a@)[i as int] == components(b@)[i as int]);
        i = i + 1;
    }
    assert(components(a@) =~= components(b@));
    true
}

/// Whether two stretches hold the same characters.
fn same_stretch(a: &Vec<char>, s: Span, b: &Vec<char>, t: Span) -> (same: bool)
    requires
        s.start <= s.end <= a@.len(),
        t.start <= t.end <= b@.len(),
    ensures
        same == (s.of(a@) == t.of(b@)),
{
    if s.end - s.start != t.end - t.start {
        assert(s.of(a@).len() != t.of(b@).len());
        return false;
    }
    let n = s.end - s.start;
    let mut i: usize = 0;
    while i < n
        invariant
            i <= n,
            n == s.end - s.start,
            n == t.end - t.start,
            s.start <= s.end <= a@.len(),
            t.start <= t.end <= b@.len(),
            forall|k: int| 0 <= k < i ==> (#[trigger] s.of(a@)[k]) == t.of(b@)[k],
        decreases n - i,
    {
        if a[s.start + i] != b[t.start + i] {
            assert(s.of(a@)[i as int] != t.of(b@)[i as int]);
            return false;
        }
        assert(s.of(a@)[i as int] == t.of(b@)[i as int]);
        i = i + 1;
    }
    assert(s.of(a@) =~= t.of(b@));
    true
}

/// What is left of a path without its last component and the slashes before
/// it.
pub open spec fn parent_text(p: Seq<char>) -> Seq<char> {
    let spans = component_spans(p);
    if spans.len() < 2 {
        Seq::empty()
    } else {
        p.take(spans[spans.len() - 2].1)
    }
}

/// The path beside `p` with another name: in place of the last component where
/// that names an entry of a directory, else below it.
pub open spec fn with_name(p: Seq<char>, name: Seq<char>) -> Seq<char> {
    if file_name_of(p) is Some {
        joined_path(parent_text(p), name)
    } else {
        joined_path(p, name)
    }
}

/// Gives a path another name.
pub fn set_file_name(path: &str, name: &str) -> (out: String)
    ensures
        out@ == with_name(path@, name@),
{
    let p = text::chars_of(path);
    let spans = split_components(&p);
    let n = spans.len();
    if n == 0 || !names_entry(&p, spans[n - 1]) {
        assert(n > 0 ==> components(path@).last() == spans@[n - 1].of(p@));
        return join(path, name);
    }
    assert(components(path@).last() == spans@[n - 1].of(p@));
    let end: usize = if n < 2 {
        0
    } else {
        assert(component_spans(path@)[n - 2] == (spans@[n - 2].start as int, spans@[n - 2].end as int));
        spans[n - 2].end
    };
    let parent = text::text_of(p.as_slice(), 0, end);
    assert(parent@ =~= parent_text(path@));
    join(parent.as_str(), name)
}

/// The pieces of a path up to a slash do not depend on what follows it.
proof fn lemma_piece_end_before_slash(b: Seq<char>, j: Seq<char>, i: int)
    requires
        0 <= i < b.len(),
        b.last() == '/',
        b.is_prefix_of(j),
    ensures
        piece_end(j, i) == piece_end(b, i),
        piece_end(b, i) < b.len(),
    decreases b.len() - i,
{
    assert(j[i] == b[i]);
    if b[i] != '/' {
        lemma_piece_end_before_slash(b, j, i + 1);
    }
}

proof fn lemma_spans_before_slash(b: Seq<char>, j: Seq<char>, i: int)
    requires
        0 <= i <= b.len(),
        b.len() > 0,
        b.last() == '/',
        b.is_prefix_of(j),
    ensures
        spans_from(j, i) == spans_from(b, i) + spans_from(j, b.len() as int),
    decreases b.len() - i,
{
    if i == b.len() {
        assert(spans_from(b, i) =~= Seq::empty());
        assert(spans_from(j, i) =~= Seq::empty() + spans_from(j, i));
    } else {
        assert(j[i] == b[i]);
        if b[i] == '/' {
            lemma_spans_before_slash(b, j, i + 1);
        } else {
            lemma_piece_end_before_slash(b, j, i);
            lemma_piece_end(b, i);
            let end = piece_end(b, i);
            assert(j.subrange(i, end) =~= b.subrange(i, end));
            lemma_spans_before_slash(b, j, end);
            if !(b.subrange(i, end) == seq!['.'] && i > 0) {
                assert(spans_from(j, i) =~= spans_from(b, i) + spans_from(j, b.len() as int));
            }
        }
    }
}

proof fn lemma_piece_end_at_slash(p: Seq<char>, i: int)
    requires
        0 <= i <= p.len(),
    ensures
        piece_end(p.push('/'), i) == piece_end(p, i),
    decreases p.len() - i,
{
    if i < p.len() && p[i] != '/' {
        lemma_piece_end_at_slash(p, i + 1);
    }
}

proof fn lemma_spans_at_slash(p: Seq<char>, i: int)
    requires
        0 <= i <= p.len(),
    ensures
        spans_from(p.push('/'), i) == spans_from(p, i),
    decreases p.len() - i,
{
    let q = p.push('/');
    if i == p.len() {
        assert(spans_from(q, i + 1) =~= Seq::empty());
    } else if p[i] == '/' {
        lemma_spans_at_slash(p, i + 1);
    } else {
        lemma_piece_end_at_slash(p, i);
        lemma_piece_end(p, i);
        let end = piece_end(p, i);
        assert(q.subrange(i, end) =~= p.subrange(i, end));
        lemma_spans_at_slash(p, end);
    }
}

proof fn lemma_piece_end_behind(b: Seq<char>, r: Seq<char>, k: int)
    requires
        0 <= k <= r.len(),
    ensures
        piece_end(b + r, b.len() + k) == b.len() + piece_end(r, k),
    decreases r.len() - k,
{
    if k < r.len() && r[k] != '/' {
        assert((b + r)[b.len() + k] == r[k]);
        lemma_piece_end_behind(b, r, k + 1);
    }
}

/// What stands behind a prefix has the components that it has by itself, but
/// for a leading `.`.
proof fn lemma_spans_behind(b: Seq<char>, r: Seq<char>, k: int)
    requires
        b.len() > 0,
        0 <= k <= r.len(),
        forall|m: int|
            0 <= m < spans_from(r, k).len() ==> r.subrange(
                (#[trigger] spans_from(r, k)[m]).0,
                spans_from(r, k)[m].1,
            ) != parent_dir(),
    ensures
        forall|m: int|
            0 <= m < spans_from(b + r, b.len() + k).len() ==> (b + r).subrange(
                (#[trigger] spans_from(b + r, b.len() + k)[m]).0,
                spans_from(b + r, b.len() + k)[m].1,
            ) != parent_dir(),
    decreases r.len() - k,
{
    let j = b + r;
    let at = b.len() + k;
    if k < r.len() {
        assert(j[at] == r[k]);
        if r[k] == '/' {
            assert(spans_from(r, k) == spans_from(r, k + 1));
            lemma_spans_behind(b, r, k + 1);
            assert(spans_from(j, at) == spans_from(j, b.len() + (k + 1)));
        } else {
            lemma_piece_end_behind(b, r, k);
            lemma_piece_end(r, k);
            let end = piece_end(r, k);
            let piece = r.subrange(k, end);
            assert(j.subrange(at, b.len() + end) =~= piece);
            let tail = spans_from(r, end);
            let here = spans_from(r, k);
            if piece == seq!['.'] && k > 0 {
                assert(here == tail);
            } else {
                assert(here == seq![(k, end)] + tail);
                assert(here[0] == (k, end));
                assert forall|m: int| 0 <= m < tail.len() implies r.subrange(
                    (#[trigger] tail[m]).0,
                    tail[m].1,
                ) != parent_dir() by {
                    assert(here[m + 1] == tail[m]);
                }
            }
            lemma_spans_behind(b, r, end);
            let rest = spans_from(j, b.len() + end);
            if piece != seq!['.'] {
                assert(spans_from(j, at) == seq![(at, b.len() + end)] + rest);
                assert forall|m: int| 0 <= m < spans_from(j, at).len() implies j.subrange(
                    (#[trigger] spans_from(j, at)[m]).0,
                    spans_from(j, at)[m].1,
                ) != parent_dir() by {
                    if m > 0 {
                        assert(spans_from(j, at)[m] == rest[m - 1]);
                    } else {
                        assert(here[0] == (k, end));
                        assert(piece != parent_dir());
                    }
                }
            } else {
                assert(spans_from(j, at) == rest);
            }
        }
    } else {
        assert(spans_from(j, at).len() == 0);
    }
}

/// A path that stays inside, joined to a directory, leads to a place in that
/// directory: it has all the components of the directory first, and behind
/// them no `..`.
pub proof fn law_what_stays_inside_does_not_climb_out(base: Seq<char>, rel: Seq<char>)
    requires
        stays_inside(rel),
    ensures
        components(base).is_prefix_of(components(joined_path(base, rel))),
        forall|i: int|
            components(base).len() <= i < components(joined_path(base, rel)).len()
                ==> #[trigger] components(joined_path(base, rel))[i] != parent_dir(),
{
    let j = joined_path(base, rel);
    let own = components(rel);
    assert forall|m: int| 0 <= m < spans_from(rel, 0).len() implies rel.subrange(
        (#[trigger] spans_from(rel, 0)[m]).0,
        spans_from(rel, 0)[m].1,
    ) != parent_dir() by {
        assert(own.contains(own[m]));
        assert(own[m] == rel.subrange(spans_from(rel, 0)[m].0, spans_from(rel, 0)[m].1));
    }
    if base.len() == 0 {
        assert(j =~= rel);
        assert(components(base) =~= Seq::empty());
        assert forall|i: int| 0 <= i < own.len() implies #[trigger] own[i] != parent_dir() by {
            assert(own.contains(own[i]));
        }
    } else {
        let b = if base.last() == '/' {
            base
        } else {
            base.push('/')
        };
        assert(j =~= b + rel);
        assert(b.is_prefix_of(j));
        let start = if is_absolute(base) {
            1int
        } else {
            0int
        };
        assert(b[0] == base[0]);
        assert(j[0] == base[0]);
        if base.last() != '/' {
            lemma_spans_at_slash(base, start);
        }
        lemma_spans_before_slash(b, j, start);
        lemma_spans_behind(b, rel, 0);
        let rest = spans_from(j, b.len() as int);
        assert(component_spans(j) =~= component_spans(base) + rest);
        lemma_spans_are_inside(base, start);
        let ours = component_spans(base);
        assert forall|i: int| 0 <= i < ours.len() implies components(j)[i] == components(
            base,
        )[i] by {
            assert(0 <= ours[i].0 <= ours[i].1 <= base.len());
            assert(j.subrange(ours[i].0, ours[i].1) =~= base.subrange(ours[i].0, ours[i].1));
            assert(component_spans(j)[i] == ours[i]);
        }
        assert forall|i: int| ours.len() <= i < components(j).len() implies #[trigger] components(
            j,
        )[i] != parent_dir() by {
            assert(rest == spans_from(b + rel, b.len() + 0int));
            let m = i - ours.len();
            assert(component_spans(j)[i] == spans_from(b + rel, b.len() + 0int)[m]);
        }
    }
}

/// The stretches of a path lie in it.
proof fn lemma_spans_are_inside(p: Seq<char>, i: int)
    requires
        0 <= i <= p.len(),
    ensures
        forall|m: int|
            0 <= m < spans_from(p, i).len() ==> 0 <= (#[trigger] spans_from(p, i)[m]).0
                <= spans_from(p, i)[m].1 <= p.len(),
    decreases p.len() - i,
{
    if i < p.len() {
        if p[i] == '/' {
            lemma_spans_are_inside(p, i + 1);
            assert(spans_from(p, i) == spans_from(p, i + 1));
        } else {
            lemma_piece_end(p, i);
            let end = piece_end(p, i);
            lemma_spans_are_inside(p, end);
            let rest = spans_from(p, end);
            if !(p.subrange(i, end) == seq!['.'] && i > 0) {
                assert(spans_from(p, i) == seq![(i, end)] + rest);
                assert forall|m: int| 0 <= m < spans_from(p, i).len() implies 0 <= (
                #[trigger] spans_from(p, i)[m]).0 <= spans_from(p, i)[m].1 <= p.len() by {
                    if m > 0 {
                        assert(spans_from(p, i)[m] == rest[m - 1]);
                    }
                }
            } else {
                assert(spans_from(p, i) == rest);
            }
        }
    } else {
        assert(spans_from(p, i).len() == 0);
    }
}

/// Whether a `..` is met, read from the start of a text. `seen` is what the
/// component at hand consists of so far: up to two dots, or, at three, anything
/// else.
spec fn climbs(p: Seq<char>, seen: int) -> bool
    decreases p.len(),
{
    if p.len() == 0 {
        seen == 2
    } else if p[0] == '/' {
        seen == 2 || climbs(p.drop_first(), 0)
    } else if p[0] == '.' && seen < 3 {
        climbs(p.drop_first(), seen + 1)
    } else {
        climbs(p.drop_first(), 3)
    }
}

/// How many dots a component consists of so far, or three where it is something
/// else.
spec fn dots(p: Seq<char>, from: int, to: int) -> int {
    if to - from <= 2 && forall|k: int| from <= k < to ==> p[k] == '.' {
        to - from
    } else {
        3
    }
}

proof fn lemma_climbs_through_piece(p: Seq<char>, from: int, to: int)
    requires
        0 <= from <= to <= piece_end(p, from),
        from <= p.len(),
    ensures
        climbs(p.skip(from), 0) == climbs(p.skip(to), dots(p, from, to)),
    decreases to - from,
{
    lemma_piece_end(p, from);
    if from < to {
        lemma_climbs_through_piece(p, from, to - 1);
        let before = p.skip(to - 1);
        assert(before[0] == p[to - 1]);
        assert(p[to - 1] != '/');
        assert(before.drop_first() =~= p.skip(to));
        if p[to - 1] == '.' && dots(p, from, to - 1) < 3 {
            if to - from <= 2 {
                assert forall|k: int| from <= k < to implies p[k] == '.' by {
                    if k < to - 1 {
                        assert(dots(p, from, to - 1) != 3);
                    }
                }
            }
            assert(dots(p, from, to) == dots(p, from, to - 1) + 1);
        } else {
            if dots(p, from, to) != 3 {
                assert(p[to - 1] == '.');
                assert(dots(p, from, to - 1) == to - 1 - from);
            }
            assert(dots(p, from, to) == 3);
        }
    }
}

/// Whether a `..` is among some stretches of a path.
spec fn has_parent(p: Seq<char>, spans: Seq<(int, int)>) -> bool {
    exists|m: int|
        0 <= m < spans.len() && p.subrange((#[trigger] spans[m]).0, spans[m].1) == parent_dir()
}

proof fn lemma_climbs_from(p: Seq<char>, i: int)
    requires
        0 <= i <= p.len(),
    ensures
        has_parent(p, spans_from(p, i)) == climbs(p.skip(i), 0),
    decreases p.len() - i,
{
    if i == p.len() {
        assert(spans_from(p, i).len() == 0);
        assert(p.skip(i).len() == 0);
    } else if p[i] == '/' {
        lemma_climbs_from(p, i + 1);
        assert(p.skip(i)[0] == '/');
        assert(p.skip(i).drop_first() =~= p.skip(i + 1));
    } else {
        lemma_piece_end(p, i);
        let end = piece_end(p, i);
        lemma_climbs_through_piece(p, i, end);
        lemma_climbs_from(p, end);
        let piece = p.subrange(i, end);
        let rest = spans_from(p, end);
        let seen = dots(p, i, end);
        assert(piece == parent_dir() <==> seen == 2) by {
            if piece == parent_dir() {
                assert(piece.len() == 2 && piece[0] == '.' && piece[1] == '.');
                assert(p[i] == '.' && p[i + 1] == '.');
            }
            if seen == 2 {
                assert(p[i] == '.' && p[i + 1] == '.');
                assert(piece =~= parent_dir());
            }
        }
        if end < p.len() {
            assert(p.skip(end)[0] == '/');
        } else {
            assert(p.skip(end).len() == 0);
        }
        assert(climbs(p.skip(i), 0) == (seen == 2 || climbs(p.skip(end), 0)));
        let here = spans_from(p, i);
        if piece == seq!['.'] && i > 0 {
            assert(here == rest);
            assert(piece.len() == 1);
        } else {
            assert(here == seq![(i, end)] + rest);
            assert(here[0] == (i, end));
            if has_parent(p, rest) {
                let m = choose|m: int|
                    0 <= m < rest.len() && p.subrange((#[trigger] rest[m]).0, rest[m].1)
                        == parent_dir();
                assert(here[m + 1] == rest[m]);
            }
            if has_parent(p, here) {
                let m = choose|m: int|
                    0 <= m < here.len() && p.subrange((#[trigger] here[m]).0, here[m].1)
                        == parent_dir();
                if m > 0 {
                    assert(here[m] == rest[m - 1]);
                }
            }
        }
    }
}

/// A path stays inside where it is relative and no `..` is met on the way
/// through it.
proof fn lemma_stays_inside(p: Seq<char>)
    ensures
        stays_inside(p) == (!is_absolute(p) && !climbs(p, 0)),
{
    if !is_absolute(p) {
        lemma_climbs_from(p, 0);
        assert(p.skip(0) =~= p);
        let spans = spans_from(p, 0);
        let cs = components(p);
        if has_parent(p, spans) {
            let m = choose|m: int|
                0 <= m < spans.len() && p.subrange((#[trigger] spans[m]).0, spans[m].1)
                    == parent_dir();
            assert(cs[m] == parent_dir());
        }
        if cs.contains(parent_dir()) {
            let m = choose|m: int| 0 <= m < cs.len() && cs[m] == parent_dir();
            assert(p.subrange(spans[m].0, spans[m].1) == parent_dir());
        }
    }
}

proof fn lemma_width_1(c: u32)
    by (bit_vector)
    requires
        c <= 0x7f,
    ensures
        (c & 0x7f) as u8 == c,
{
}

proof fn lemma_high_bytes(c: u32)
    by (bit_vector)
    ensures
        0xC0u8 | ((c >> 6) & 0x1F) as u8 >= 0x80,
        0xE0u8 | ((c >> 12) & 0x0F) as u8 >= 0x80,
        0xF0u8 | ((c >> 18) & 0x7) as u8 >= 0x80,
        0x80u8 | (c & 0x3F) as u8 >= 0x80,
        0x80u8 | ((c >> 6) & 0x3F) as u8 >= 0x80,
        0x80u8 | ((c >> 12) & 0x3F) as u8 >= 0x80,
{
}

/// The bytes of a character are its code, where that fits into seven bits, and
/// otherwise all have their highest bit set.
proof fn lemma_encoded(c: char)
    ensures
        c as u32 <= 0x7f ==> encode_scalar(c as u32) == seq![c as u8] && (c as u8) as char == c,
        c as u32 > 0x7f ==> encode_scalar(c as u32).len() > 0 && forall|i: int|
            0 <= i < encode_scalar(c as u32).len() ==> (#[trigger] encode_scalar(c as u32)[i])
                >= 0x80,
{
    char_is_scalar(c);
    if c as u32 <= 0x7f {
        lemma_width_1(c as u32);
    }
    lemma_high_bytes(c as u32);
}

/// Bytes with their highest bit set are neither slashes nor dots.
proof fn lemma_climbs_past_high_bytes(high: Seq<u8>, rest: Seq<u8>, seen: int)
    requires
        high.len() > 0,
        forall|i: int| 0 <= i < high.len() ==> (#[trigger] high[i]) >= 0x80,
    ensures
        climbs(widened(high + rest), seen) == climbs(widened(rest), 3),
    decreases high.len(),
{
    let all = widened(high + rest);
    assert(all[0] == high[0] as char);
    let tail = high.drop_first();
    assert(all.drop_first() =~= widened(tail + rest));
    if tail.len() > 0 {
        assert forall|i: int| 0 <= i < tail.len() implies (#[trigger] tail[i]) >= 0x80 by {
            assert(tail[i] == high[i + 1]);
        }
        lemma_climbs_past_high_bytes(tail, rest, 3);
    } else {
        assert(tail + rest =~= rest);
    }
}

proof fn lemma_climbs_in_bytes(p: Seq<char>, seen: int)
    ensures
        climbs(widened(encode_utf8(p)), seen) == climbs(p, seen),
    decreases p.len(),
{
    let bytes = encode_utf8(p);
    if p.len() == 0 {
        assert(widened(bytes).len() == 0);
    } else {
        let first = encode_scalar(p[0] as u32);
        let rest = encode_utf8(p.drop_first());
        lemma_encoded(p[0]);
        if p[0] as u32 <= 0x7f {
            assert(bytes[0] == first[0]);
            assert(widened(bytes)[0] == p[0]);
            assert(widened(bytes).drop_first() =~= widened(rest));
            lemma_climbs_in_bytes(p.drop_first(), 0);
            lemma_climbs_in_bytes(p.drop_first(), seen + 1);
            lemma_climbs_in_bytes(p.drop_first(), 3);
        } else {
            lemma_climbs_past_high_bytes(first, rest, seen);
            lemma_climbs_in_bytes(p.drop_first(), 3);
        }
    }
}

/// A text stays inside exactly where its bytes do.
pub proof fn lemma_bytes_stay_inside(p: Seq<char>)
    ensures
        stays_inside(widened(encode_utf8(p))) == stays_inside(p),
{
    let bytes = encode_utf8(p);
    lemma_stays_inside(p);
    lemma_stays_inside(widened(bytes));
    lemma_climbs_in_bytes(p, 0);
    if p.len() > 0 {
        lemma_encoded(p[0]);
        assert(bytes[0] == encode_scalar(p[0] as u32)[0]);
        assert(widened(bytes)[0] == bytes[0] as char);
    } else {
        assert(widened(bytes).len() == 0);
    }
}

/// Whether a component `..` stands at `k`: two dots, with nothing but a slash or
/// an end on either side.
pub open spec fn parent_at(p: Seq<char>, k: int) -> bool {
    &&& 0 <= k && k + 2 <= p.len()
    &&& p[k] == '.' && p[k + 1] == '.'
    &&& k == 0 || p[k - 1] == '/'
    &&& k + 2 == p.len() || p[k + 2] == '/'
}

proof fn lemma_climbs_at(p: Seq<char>, i: int)
    requires
        0 <= i <= p.len(),
        i == 0 || i == p.len() || p[i] == '/' || p[i - 1] == '/',
    ensures
        climbs(p.skip(i), 0) <==> exists|k: int| i <= k && #[trigger] parent_at(p, k),
    decreases p.len() - i,
{
    if i == p.len() {
        assert(p.skip(i).len() == 0);
    } else if p[i] == '/' {
        lemma_climbs_at(p, i + 1);
        assert(p.skip(i)[0] == '/');
        assert(p.skip(i).drop_first() =~= p.skip(i + 1));
    } else {
        lemma_piece_end(p, i);
        let end = piece_end(p, i);
        lemma_climbs_through_piece(p, i, end);
        lemma_climbs_at(p, end);
        let seen = dots(p, i, end);
        if end < p.len() {
            assert(p.skip(end)[0] == '/');
        } else {
            assert(p.skip(end).len() == 0);
        }
        assert(climbs(p.skip(i), 0) == (seen == 2 || climbs(p.skip(end), 0)));
        if seen == 2 {
            assert(p[i] == '.' && p[i + 1] == '.');
            assert(parent_at(p, i));
        }
        if exists|k: int| i <= k && #[trigger] parent_at(p, k) {
            let k = choose|k: int| i <= k && #[trigger] parent_at(p, k);
            if k < end {
                if k > i {
                    assert(p[k - 1] != '/');
                }
                assert(k == i);
                if end < i + 2 {
                    assert(p[end] == '/');
                }
                if end > i + 2 {
                    assert(p[i + 2] != '/');
                }
                assert(seen == 2);
            }
        }
    }
}

/// A path stays inside exactly where it does not start with a slash and `..`
/// stands nowhere in it between slashes or ends.
pub proof fn law_staying_inside_is_never_going_up(p: Seq<char>)
    ensures
        stays_inside(p) <==> !(p.len() > 0 && p[0] == '/') && forall|k: int|
            !#[trigger] parent_at(p, k),
{
    lemma_stays_inside(p);
    lemma_climbs_at(p, 0);
    assert(p.skip(0) =~= p);
    if exists|k: int| #[trigger] parent_at(p, k) {
        let k = choose|k: int| #[trigger] parent_at(p, k);
        assert(0 <= k && parent_at(p, k));
    }
}

/// The bytes of a name without slashes have no slash in them, and the name is
/// the only component.
pub proof fn lemma_single_component(name: Seq<char>)
    requires
        name.len() > 0,
        !name.contains('/'),
    ensures
        components(name) == seq![name],
        components(widened(encode_utf8(name))) == seq![widened(encode_utf8(name))],
{
    lemma_one_piece(name);
    let wide = widened(encode_utf8(name));
    lemma_no_slash_in_bytes(name);
    lemma_encoded(name[0]);
    assert(encode_utf8(name).len() > 0);
    lemma_one_piece(wide);
}

proof fn lemma_one_piece(p: Seq<char>)
    requires
        p.len() > 0,
        !p.contains('/'),
    ensures
        components(p) == seq![p],
{
    assert(p[0] != '/') by {
        assert(p.contains(p[0]));
    }
    lemma_piece_end(p, 0);
    let end = piece_end(p, 0);
    if end < p.len() {
        assert(p.contains(p[end]));
    }
    assert(spans_from(p, end).len() == 0);
    assert(spans_from(p, 0) =~= seq![(0int, end)]);
    assert(p.subrange(0, end) =~= p);
    assert(components(p) =~= seq![p]);
}

proof fn lemma_no_slash_in_bytes(p: Seq<char>)
    requires
        !p.contains('/'),
    ensures
        !widened(encode_utf8(p)).contains('/'),
    decreases p.len(),
{
    let bytes = encode_utf8(p);
    if p.len() > 0 {
        let rest = p.drop_first();
        if rest.contains('/') {
            let k = choose|k: int| 0 <= k < rest.len() && rest[k] == '/';
            assert(p[k + 1] == '/');
        }
        lemma_no_slash_in_bytes(rest);
        lemma_encoded(p[0]);
        assert(p.contains(p[0]));
        let first = encode_scalar(p[0] as u32);
        if widened(bytes).contains('/') {
            let k = choose|k: int| 0 <= k < widened(bytes).len() && widened(bytes)[k] == '/';
            if k < first.len() {
                assert(bytes[k] == first[k]);
            } else {
                assert(bytes[k] == encode_utf8(rest)[k - first.len()]);
                assert(widened(encode_utf8(rest))[k - first.len()] == '/');
            }
        }
    }
}

/// Bytes are told apart by the characters that stand for them.
pub proof fn lemma_widened_is_injective(a: Seq<u8>, b: Seq<u8>)
    requires
        widened(a) == widened(b),
    ensures
        a == b,
{
    assert(a.len() == widened(a).len());
    assert(b.len() == widened(b).len());
    assert forall|i: int| 0 <= i < a.len() implies a[i] == b[i] by {
        assert(widened(a)[i] == a[i] as char);
        assert(widened(b)[i] == b[i] as char);
        assert((a[i] as char) as u8 == a[i]);
        assert((b[i] as char) as u8 == b[i]);
    }
    assert(a =~= b);
}

proof fn lemma_last_span(p: Seq<char>, i: int)
    requires
        0 <= i < p.len(),
        p.last() != '/',
        p.last() != '.',
    ensures
        spans_from(p, i).len() > 0,
        spans_from(p, i).last().1 == p.len(),
    decreases p.len() - i,
{
    if p[i] == '/' {
        lemma_last_span(p, i + 1);
    } else {
        lemma_piece_end(p, i);
        let end = piece_end(p, i);
        let piece = p.subrange(i, end);
        if end == p.len() {
            assert(spans_from(p, end).len() == 0);
            if piece == seq!['.'] {
                assert(piece.last() == p.last());
                assert(piece[piece.len() - 1] == '.');
            }
            assert(spans_from(p, i) =~= seq![(i, end)]);
        } else {
            lemma_last_span(p, end);
            let rest = spans_from(p, end);
            if !(piece == seq!['.'] && i > 0) {
                assert(spans_from(p, i) == seq![(i, end)] + rest);
                assert(spans_from(p, i).last() == rest.last());
            }
        }
    }
}

/// An entry of a directory is named by what stands behind the last slash, and
/// the directory is what stands before it.
pub proof fn law_a_name_stands_behind_its_directory(parent: Seq<char>, name: Seq<char>)
    requires
        parent.len() > 0,
        parent[0] == '/',
        parent.last() != '/',
        parent.last() != '.',
        name.len() > 0,
        !name.contains('/'),
        name != seq!['.'],
        name != seq!['.', '.'],
    ensures
        file_name_of(parent + seq!['/'] + name) == Some(name),
        parent_text(parent + seq!['/'] + name) == parent,
{
    let b = parent.push('/');
    let p = parent + seq!['/'] + name;
    assert(p =~= b + name);
    assert(b.is_prefix_of(p));
    assert(p[0] == '/');
    assert(b.last() == '/');
    lemma_spans_at_slash(parent, 1);
    lemma_spans_before_slash(b, p, 1);
    lemma_last_span(parent, 1);
    let at = b.len() as int;
    assert(p[at] == name[0]);
    assert(name.contains(name[0]));
    lemma_piece_end(p, at);
    let end = piece_end(p, at);
    if end < p.len() {
        assert(p[end] == name[end - at]);
        assert(name.contains(name[end - at]));
    }
    assert(p.subrange(at, end) =~= name);
    assert(spans_from(p, end).len() == 0);
    assert(spans_from(p, at) =~= seq![(at, end)]);
    let ours = spans_from(parent, 1);
    assert(component_spans(p) =~= seq![(0int, 1int)] + ours + seq![(at, end)]);
    let spans = component_spans(p);
    assert(spans.last() == (at, end));
    assert(components(p).last() == name);
    if name == seq!['/'] {
        assert(name[0] == '/');
    }
    assert(is_name(name));
    assert(spans[spans.len() - 2] == ours.last());
    assert(p.take(parent.len() as int) =~= parent);
}

/// Giving an entry another name leaves it in its directory.
pub proof fn law_a_renamed_entry_stays_in_its_directory(
    parent: Seq<char>,
    name: Seq<char>,
    other: Seq<char>,
)
    requires
        parent.len() > 0,
        parent[0] == '/',
        parent.last() != '/',
        parent.last() != '.',
        name.len() > 0,
        !name.contains('/'),
        name != seq!['.'],
        name != seq!['.', '.'],
        other.len() > 0,
        other[0] != '/',
    ensures
        with_name(parent + seq!['/'] + name, other) == parent + seq!['/'] + other,
{
    law_a_name_stands_behind_its_directory(parent, name);
    assert(joined_path(parent, other) =~= parent + seq!['/'] + other);
}

/// Joining a relative path to a directory puts it behind that and one slash; an
/// absolute one stands for itself.
pub proof fn law_joining_goes_below(base: Seq<char>, rel: Seq<char>)
    ensures
        rel.len() > 0 && rel[0] == '/' ==> joined_path(base, rel) == rel,
        !(rel.len() > 0 && rel[0] == '/') && base.len() > 0 && base.last() != '/' ==> joined_path(
            base,
            rel,
        ) == base + seq!['/'] + rel,
        !(rel.len() > 0 && rel[0] == '/') && base.len() > 0 && base.last() == '/' ==> joined_path(
            base,
            rel,
        ) == base + rel,
        base.len() == 0 ==> joined_path(base, rel) == rel,
{
    if !(rel.len() > 0 && rel[0] == '/') && base.len() > 0 && base.last() != '/' {
        assert(joined_path(base, rel) =~= base + seq!['/'] + rel);
    }
    if base.len() == 0 {
        assert(joined_path(base, rel) =~= rel);
    }
}

proof fn lemma_spans_are_bounded(p: Seq<char>, i: int)
    requires
        0 <= i <= p.len(),
    ensures
        forall|m: int|
            0 <= m < spans_from(p, i).len() ==> i <= (#[trigger] spans_from(p, i)[m]).0
                < spans_from(p, i)[m].1 <= p.len(),
    decreases p.len() - i,
{
    if i < p.len() {
        if p[i] == '/' {
            lemma_spans_are_bounded(p, i + 1);
            assert(spans_from(p, i) == spans_from(p, i + 1));
        } else {
            lemma_piece_end(p, i);
            let end = piece_end(p, i);
            lemma_spans_are_bounded(p, end);
            let rest = spans_from(p, end);
            let here = spans_from(p, i);
            if p.subrange(i, end) == seq!['.'] && i > 0 {
                assert(here == rest);
            } else {
                assert(here == seq![(i, end)] + rest);
                assert forall|m: int| 0 <= m < here.len() implies i <= (#[trigger] here[m]).0
                    < here[m].1 <= p.len() by {
                    if m > 0 {
                        assert(here[m] == rest[m - 1]);
                    }
                }
            }
        }
    } else {
        assert(spans_from(p, i).len() == 0);
    }
}

/// A path has the components of the directory that it names, and behind them
/// what stands behind its last slash, unless that is empty or `.`. The root is a
/// component, and a name by itself is the only one.
pub proof fn law_a_path_grows_by_its_last_name(dir: Seq<char>, name: Seq<char>)
    requires
        name.len() > 0,
        !name.contains('/'),
    ensures
        components(Seq::empty()) == Seq::<Seq<char>>::empty(),
        components(seq!['/']) == seq![seq!['/']],
        components(name) == seq![name],
        name != seq!['.'] ==> components(seq!['/'] + name) == seq![seq!['/'], name],
        dir.len() > 0 ==> components(dir.push('/')) == components(dir),
        dir.len() > 0 && name != seq!['.'] ==> components(dir.push('/') + name) == components(
            dir,
        ).push(name),
        dir.len() > 0 && name == seq!['.'] ==> components(dir.push('/') + name) == components(dir),
{
    let none = Seq::<char>::empty();
    assert(spans_from(none, 0) =~= Seq::empty());
    assert(components(none) =~= Seq::<Seq<char>>::empty());
    let root = seq!['/'];
    assert(spans_from(root, 1) =~= Seq::empty());
    assert(root.subrange(0, 1) =~= root);
    assert(components(root) =~= seq![root]);
    lemma_one_piece(name);
    assert(name.contains(name[0]));
    let below = root + name;
    assert(root.is_prefix_of(below)) by {
        assert(root =~= below.subrange(0, 1));
    }
    lemma_last_piece(root, name);
    if name != seq!['.'] {
        assert(component_spans(below) =~= seq![(0int, 1int), (1int, below.len() as int)]);
        assert(below.subrange(0, 1) =~= root);
        assert(below.subrange(1, below.len() as int) =~= name);
        assert(components(below) =~= seq![root, name]);
    }
    if dir.len() > 0 {
        let b = dir.push('/');
        let p = b + name;
        let start = if dir[0] == '/' { 1int } else { 0 };
        lemma_spans_at_slash(dir, start);
        lemma_spans_are_bounded(dir, start);
        let ours = spans_from(dir, start);
        assert(b[0] == dir[0] && p[0] == dir[0]);
        assert(component_spans(b) == component_spans(dir));
        assert forall|s: (int, int)| 0 <= s.0 <= s.1 <= dir.len() implies #[trigger] b.subrange(
            s.0,
            s.1,
        ) == dir.subrange(s.0, s.1) && p.subrange(s.0, s.1) == dir.subrange(s.0, s.1) by {
            assert(b.subrange(s.0, s.1) =~= dir.subrange(s.0, s.1));
            assert(p.subrange(s.0, s.1) =~= dir.subrange(s.0, s.1));
        }
        let spans = component_spans(dir);
        assert forall|m: int| 0 <= m < spans.len() implies 0 <= (#[trigger] spans[m]).0 <= spans[m].1
            <= dir.len() by {
            if dir[0] == '/' {
                if m > 0 {
                    assert(spans[m] == ours[m - 1]);
                }
            } else {
                assert(spans[m] == ours[m]);
            }
        }
        assert(components(b) =~= components(dir)) by {
            assert forall|m: int| 0 <= m < spans.len() implies #[trigger] components(b)[m]
                == components(dir)[m] by {
                let s = spans[m];
                assert(b.subrange(s.0, s.1) == dir.subrange(s.0, s.1));
            }
        }
        assert(b.is_prefix_of(p)) by {
            assert(b =~= p.subrange(0, b.len() as int));
        }
        lemma_spans_before_slash(b, p, start);
        lemma_last_piece(b, name);
        let last = spans_from(p, b.len() as int);
        assert(component_spans(p) =~= spans + last);
        assert forall|m: int| 0 <= m < spans.len() implies #[trigger] components(p)[m]
            == components(dir)[m] by {
            let s = spans[m];
            assert(component_spans(p)[m] == s);
            assert(b.subrange(s.0, s.1) == dir.subrange(s.0, s.1));
        }
        if name != seq!['.'] {
            assert(component_spans(p)[spans.len() as int] == (b.len() as int, p.len() as int));
            assert(p.subrange(b.len() as int, p.len() as int) =~= name);
            assert(components(p) =~= components(dir).push(name));
        } else {
            assert(components(p) =~= components(dir));
        }
    }
}

proof fn lemma_last_piece(b: Seq<char>, name: Seq<char>)
    requires
        b.len() > 0,
        name.len() > 0,
        !name.contains('/'),
    ensures
        spans_from(b + name, b.len() as int) == (if name == seq!['.'] {
            Seq::empty()
        } else {
            seq![(b.len() as int, (b + name).len() as int)]
        }),
{
    let p = b + name;
    let at = b.len() as int;
    assert(p[at] == name[0]);
    assert(name.contains(name[0]));
    lemma_piece_end(p, at);
    let end = piece_end(p, at);
    if end < p.len() {
        assert(p[end] == name[end - at]);
        assert(name.contains(name[end - at]));
    }
    assert(p.subrange(at, end) =~= name);
    assert(spans_from(p, end).len() == 0);
    assert(spans_from(p, end) =~= Seq::empty());
    assert(seq![(at, end)] + spans_from(p, end) =~= seq![(at, end)]);
}

/// The last component of a path is its name, unless it is the root, `.` or `..`.
pub proof fn law_the_last_component_is_the_name(p: Seq<char>)
    ensures
        ({
            let cs = components(p);
            let last = cs.last();
            &&& file_name_of(p) is Some <==> cs.len() > 0 && last != seq!['/'] && last
                != seq!['.'] && last != seq!['.', '.']
            &&& file_name_of(p) is Some ==> file_name_of(p)->0 == last
        }),
{
}

/// The functions on paths do what is said of paths here.
pub proof fn law_paths_are_taken_by_their_text(
    base: &str,
    rel: &str,
    p: &Vec<char>,
    q: &Vec<char>,
    bytes: &[u8],
    joined: String,
    name: Option<String>,
    renamed: String,
    contained: bool,
    same: bool,
    wide: Vec<char>,
    k: int,
)
    requires
        call_ensures(join, (base, rel), joined),
        call_ensures(file_name, (base,), name),
        call_ensures(set_file_name, (base, rel), renamed),
        call_ensures(inside, (p,), contained),
        call_ensures(same_components, (p, q), same),
        call_ensures(widen, (bytes,), wide),
    ensures
        joined@ == joined_path(base@, rel@),
        name is Some <==> file_name_of(base@) is Some,
        name is Some ==> name->0@ == file_name_of(base@)->0,
        renamed@ == with_name(base@, rel@),
        contained <==> !(p@.len() > 0 && p@[0] == '/') && !components(p@).contains(
            seq!['.', '.'],
        ),
        same <==> components(p@) == components(q@),
        wide@.len() == bytes@.len(),
        0 <= k < bytes@.len() ==> wide@[k] as int == bytes@[k] as int,
{
    if 0 <= k < bytes@.len() {
        assert(wide@[k] == widened(bytes@)[k]);
    }
}

} // verus!
