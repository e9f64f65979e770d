//! Unix paths as text: joining, and comparing by whole components as `std::path` does.
use vstd::prelude::*;
use crate::text::{chars_of, chars_eq, string_from_chars};

verus! {

/// Whether a path is absolute: on Unix, whether it starts with `/`.
pub open spec fn is_absolute(p: Seq<char>) -> bool {
    p.len() > 0 && p[0] == '/'
}

/// `base` joined with `p` (`Path::join`): an absolute `p` replaces `base`; otherwise `p` is
/// appended, with a `/` between them when `base` is not empty and does not already end in one.
pub open spec fn join_path(base: Seq<char>, p: Seq<char>) -> Seq<char> {
    if is_absolute(p) {
        p
    } else if base.len() == 0 || base.last() == '/' {
        base + p
    } else {
        base + seq!['/'] + p
    }
}

/// The pieces of `p` between slashes; there is always at least one.
pub open spec fn split_slash(p: Seq<char>) -> Seq<Seq<char>>
    decreases p.len(),
{
    if p.len() == 0 {
        seq![Seq::<char>::empty()]
    } else {
        let prev = split_slash(p.drop_last());
        if p.last() == '/' {
            prev.push(Seq::<char>::empty())
        } else {
            prev.update(prev.len() - 1, prev.last().push(p.last()))
        }
    }
}

/// `split_slash` never gives an empty list.
pub proof fn lemma_split_slash_nonempty(p: Seq<char>)
    ensures
        split_slash(p).len() >= 1,
    decreases p.len(),
{
    if p.len() > 0 {
        lemma_split_slash_nonempty(p.drop_last());
    }
}

/// The pieces that name something: empty pieces and `.` are dropped.
pub open spec fn normal_parts(segs: Seq<Seq<char>>) -> Seq<Seq<char>>
    decreases segs.len(),
{
    if segs.len() == 0 {
        Seq::empty()
    } else if segs.last().len() == 0 || segs.last() == seq!['.'] {
        normal_parts(segs.drop_last())
    } else {
        normal_parts(segs.drop_last()).push(segs.last())
    }
}

/// The components of a path (`Path::components`): the root `/` of an absolute path, a leading
/// `.` of a relative one, then the pieces that name something.
pub open spec fn components(p: Seq<char>) -> Seq<Seq<char>> {
    let segs = split_slash(p);
    if is_absolute(p) {
        seq![seq!['/']] + normal_parts(segs.drop_first())
    } else if segs[0] == seq!['.'] {
        seq![seq!['.']] + normal_parts(segs.drop_first())
    } else {
        normal_parts(segs)
    }
}

/// Whether `path` starts with `base` by whole components (`Path::starts_with`).
pub open spec fn path_starts_with(path: Seq<char>, base: Seq<char>) -> bool {
    let cp = components(path);
    let cb = components(base);
    cb.len() <= cp.len() && cp.subrange(0, cb.len() as int) == cb
}

/// The views of a list of character vectors.
pub open spec fn char_vecs_view(v: Seq<Vec<char>>) -> Seq<Seq<char>> {
    v.map_values(|c: Vec<char>| c@)
}

/// The pieces of `p` between slashes.
fn split_slash_exec(p: &[char]) -> (r: Vec<Vec<char>>)
    ensures
        char_vecs_view(r@) == split_slash(p@),
{
    let mut done: Vec<Vec<char>> = Vec::new();
    let mut cur: Vec<char> = Vec::new();
    let mut i: usize = 0;
    assert(p@.take(0) =~= Seq::<char>::empty());
    assert(char_vecs_view(done@).push(cur@) =~= seq![Seq::<char>::empty()]);
    while i < p.len()
        invariant
            i <= p@.len(),
            split_slash(p@.take(i as int)) == char_vecs_view(done@).push(cur@),
        decreases p.len() - i,
    {
        assert(p@.take(i + 1).drop_last() == p@.take(i as int));
        let c = p[i];
        if c == '/' {
            let ghost before = done@;
            done.push(cur);
            cur = Vec::new();
            assert(char_vecs_view(done@) =~= char_vecs_view(before).push(
                split_slash(p@.take(i as int)).last(),
            ));
            assert(char_vecs_view(done@).push(cur@) =~= split_slash(p@.take(i + 1)));
        } else {
            let ghost before = cur@;
            cur.push(c);
            assert(char_vecs_view(done@).push(cur@) =~= split_slash(p@.take(i + 1)));
        }
        i = i + 1;
    }
    assert(p@.take(p@.len() as int) == p@);
    let ghost before = done@;
    done.push(cur);
    assert(char_vecs_view(done@) =~= char_vecs_view(before).push(split_slash(p@).last()));
    done
}

/// Whether a piece is `.`.
fn is_dot(s: &Vec<char>) -> (r: bool)
    ensures
        r == (s@ == seq!['.']),
{
    if s.len() == 1 && s[0] == '.' {
        assert(s@ =~= seq!['.']);
        true
    } else {
        false
    }
}

/// The components of a path.
pub fn components_of(p: &[char]) -> (r: Vec<Vec<char>>)
    ensures
        char_vecs_view(r@) == components(p@),
{
    let segs = split_slash_exec(p);
    let ghost sv = char_vecs_view(segs@);
    proof {
        lemma_split_slash_nonempty(p@);
    }
    let mut r: Vec<Vec<char>> = Vec::new();
    let start: usize;
    if p.len() > 0 && p[0] == '/' {
        let mut root: Vec<char> = Vec::new();
        root.push('/');
        r.push(root);
        start = 1;
        assert(char_vecs_view(r@) =~= seq![seq!['/']]);
    } else if is_dot(&segs[0]) {
        let mut dot: Vec<char> = Vec::new();
        dot.push('.');
        r.push(dot);
        start = 1;
        assert(char_vecs_view(r@) =~= seq![seq!['.']]);
    } else {
        start = 0;
        assert(char_vecs_view(r@) =~= Seq::<Seq<char>>::empty());
    }
    let ghost prefix = char_vecs_view(r@);
    let ghost rest = sv.subrange(start as int, sv.len() as int);
    assert(rest.take(0) =~= Seq::<Seq<char>>::empty());
    let mut i: usize = start;
    while i < segs.len()
        invariant
            start <= i <= segs@.len(),
            sv == char_vecs_view(segs@),
            rest == sv.subrange(start as int, sv.len() as int),
            char_vecs_view(r@) == prefix + normal_parts(rest.take(i - start)),
        decreases segs.len() - i,
    {
        assert(rest.take(i + 1 - start).drop_last() == rest.take(i - start));
        assert(rest.take(i + 1 - start).last() == sv[i as int]);
        if segs[i].len() > 0 && !is_dot(&segs[i]) {
            let ghost before = r@;
            r.push(segs[i].clone());
            assert(char_vecs_view(r@) =~= char_vecs_view(before).push(sv[i as int]));
        }
        i = i + 1;
    }
    assert(rest.take(segs@.len() - start) == rest);
    if start == 1 {
        assert(rest == sv.drop_first());
    } else {
        assert(rest == sv);
    }
    r
}

/// Whether `path` starts with `base` by whole components.
pub fn starts_with_path(path: &str, base: &str) -> (r: bool)
    ensures
        r == path_starts_with(path@, base@),
{
    let pc = chars_of(path);
    let bc = chars_of(base);
    let cp = components_of(pc.as_slice());
    let cb = components_of(bc.as_slice());
    assert(char_vecs_view(cp@) == components(path@));
    assert(char_vecs_view(cb@) == components(base@));
    if cb.len() > cp.len() {
        return false;
    }
    let mut i: usize = 0;
    while i < cb.len()
        invariant
            cb@.len() <= cp@.len(),
            char_vecs_view(cp@) == components(path@),
            char_vecs_view(cb@) == components(base@),
            i <= cb@.len(),
            forall|j: int| 0 <= j < i ==> cp@[j]@ == cb@[j]@,
        decreases cb.len() - i,
    {
        if !chars_eq(cp[i].as_slice(), cb[i].as_slice()) {
            assert(char_vecs_view(cp@)[i as int] != char_vecs_view(cb@)[i as int]);
            assert(char_vecs_view(cp@).subrange(0, cb@.len() as int)[i as int] != char_vecs_view(
                cb@,
            )[i as int]);
            return false;
        }
        i = i + 1;
    }
    assert(char_vecs_view(cp@).subrange(0, cb@.len() as int) =~= char_vecs_view(cb@));
    true
}

/// Whether a path is absolute.
pub fn is_absolute_path(p: &str) -> (r: bool)
    ensures
        r == is_absolute(p@),
{
    let c = chars_of(p);
    c.len() > 0 && c[0] == '/'
}

/// `base` joined with `p`.
pub fn join_paths(base: &str, p: &str) -> (r: String)
    ensures
        r@ == join_path(base@, p@),
{
    let b = chars_of(base);
    let q = chars_of(p);
    if q.len() > 0 && q[0] == '/' {
        return string_from_chars(q.as_slice());
    }
    let mut out = b.clone();
    if b.len() > 0 && b[b.len() - 1] != '/' {
        out.push('/');
    }
    let mut i: usize = 0;
    let ghost head = out@;
    while i < q.len()
        invariant
            i <= q@.len(),
            out@ == head + q@.take(i as int),
        decreases q.len() - i,
    {
        out.push(q[i]);
        assert(q@.take(i + 1) == q@.take(i as int).push(q@[i as int]));
        i = i + 1;
    }
    assert(q@.take(q@.len() as int) == q@);
    proof {
        if b@.len() > 0 && b@.last() != '/' {
            assert(head == b@ + seq!['/']);
        } else {
            assert(head == b@);
        }
    }
    string_from_chars(out.as_slice())
}

} // verus!
