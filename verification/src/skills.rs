//! Skills as found on disk: a `SKILL.md` file per skill, with YAML frontmatter naming and
//! describing the skill.
use vstd::prelude::*;
use vstd::string::*;
use crate::maps::StringMap;
use crate::text::{
    lines, lines_of, join, lemma_find_char, join_chars, vecs_view, trim, trim_char, find_char, find_char_index,
    trim_chars, trim_char_chars, sub_chars, chars_of, string_from_chars, owned, str_eq, views,
};

verus! {

broadcast use vstd::string::group_string_axioms;

/// A skill as stored: its id, its description (kept under `name`), and whether it is
/// enabled (1) or not (0).
pub struct Skill {
    pub id: String,
    pub name: String,
    pub enabled: i32,
}

/// A request to enable or disable a skill.
pub struct UpdateSkillRequest {
    pub enabled: bool,
}

/// An error as the skill API reports it.
pub struct ApiError {
    pub code: String,
    pub message: String,
}

/// The line that opens and closes a frontmatter block.
pub open spec fn dashes() -> Seq<char> {
    seq!['-', '-', '-']
}

/// Whether `s` opens with a frontmatter line (`---` and a line ending).
pub open spec fn opens_frontmatter(s: Seq<char>) -> bool {
    ||| (s.len() >= 4 && s.subrange(0, 4) == seq!['-', '-', '-', '\n'])
    ||| (s.len() >= 5 && s.subrange(0, 5) == seq!['-', '-', '-', '\r', '\n'])
}

/// The index of the first line equal to `t`.
pub open spec fn find_line(ls: Seq<Seq<char>>, t: Seq<char>) -> Option<int>
    decreases ls.len(),
{
    if ls.len() == 0 {
        None
    } else if ls[0] == t {
        Some(0)
    } else {
        match find_line(ls.drop_first(), t) {
            Some(i) => Some(i + 1),
            None => None,
        }
    }
}

/// Walking past lines that differ from `t` does not change the first match.
pub proof fn lemma_find_line_skip(ls: Seq<Seq<char>>, t: Seq<char>, i: int)
    requires
        0 <= i <= ls.len(),
        forall|j: int| 0 <= j < i ==> ls[j] != t,
    ensures
        find_line(ls, t) == match find_line(ls.subrange(i, ls.len() as int), t) {
            Some(k) => Some(k + i),
            None => None::<int>,
        },
    decreases i,
{
    if i > 0 {
        lemma_find_line_skip(ls.drop_first(), t, i - 1);
        assert(ls.drop_first().subrange(i - 1, ls.drop_first().len() as int) == ls.subrange(
            i,
            ls.len() as int,
        ));
    } else {
        assert(ls.subrange(0, ls.len() as int) == ls);
    }
}

/// The index of the line that closes the frontmatter: the first `---` after the first line.
pub open spec fn closing_line(ls: Seq<Seq<char>>) -> Option<int> {
    if ls.len() == 0 {
        None
    } else {
        match find_line(ls.drop_first(), dashes()) {
            Some(i) => Some(i + 1),
            None => None,
        }
    }
}

/// The key of a `key: value` line: the text before the first colon, trimmed.
pub open spec fn colon_key(l: Seq<char>) -> Seq<char> {
    trim(l.take(find_char(l, ':')->0))
}

/// The value of a `key: value` line: the text after the first colon, trimmed, without
/// surrounding double quotes.
pub open spec fn colon_value(l: Seq<char>) -> Seq<char> {
    trim_char(trim(l.skip(find_char(l, ':')->0 + 1)), '"')
}

/// The key-value pairs of frontmatter lines; a later line overrides an earlier one with the
/// same key, and lines without a colon are ignored.
pub open spec fn meta_map(ls: Seq<Seq<char>>) -> Map<Seq<char>, Seq<char>>
    decreases ls.len(),
{
    if ls.len() == 0 {
        Map::empty()
    } else {
        let m = meta_map(ls.drop_last());
        let l = ls.last();
        if find_char(l, ':') is Some {
            m.insert(colon_key(l), colon_value(l))
        } else {
            m
        }
    }
}

/// The frontmatter of `s`: its key-value pairs and the text after it, trimmed; `None`
/// when `s` does not open with `---` or the block is never closed.
pub open spec fn frontmatter(s: Seq<char>) -> Option<(Map<Seq<char>, Seq<char>>, Seq<char>)> {
    if !opens_frontmatter(s) {
        None
    } else {
        let ls = lines(s);
        match closing_line(ls) {
            None => None,
            Some(e) => Some(
                (
                    meta_map(lines(join(ls.subrange(1, e), seq!['\n']))),
                    trim(join(ls.subrange(e + 1, ls.len() as int), seq!['\n'])),
                ),
            ),
        }
    }
}

/// The lines `a..b` of `ls`.
fn sub_lines(ls: &Vec<Vec<char>>, a: usize, b: usize) -> (r: Vec<Vec<char>>)
    requires
        a <= b <= ls@.len(),
    ensures
        vecs_view(r@) == vecs_view(ls@).subrange(a as int, b as int),
{
    let mut r: Vec<Vec<char>> = Vec::new();
    let mut i = a;
    while i < b
        invariant
            a <= i <= b <= ls@.len(),
            vecs_view(r@) == vecs_view(ls@).subrange(a as int, i as int),
        decreases b - i,
    {
        let ghost before = r@;
        let l = sub_chars(ls[i].as_slice(), 0, ls[i].len());
        assert(ls@[i as int]@.subrange(0, ls@[i as int]@.len() as int) == ls@[i as int]@);
        r.push(l);
        assert(vecs_view(ls@)[i as int] == ls@[i as int]@);
        assert(vecs_view(r@) =~= vecs_view(before).push(l@));
        assert(vecs_view(r@) =~= vecs_view(ls@).subrange(a as int, i + 1));
        i = i + 1;
    }
    r
}

/// Whether `v` is `---`.
fn is_dashes(v: &Vec<char>) -> (r: bool)
    ensures
        r == (v@ == dashes()),
{
    if v.len() == 3 && v[0] == '-' && v[1] == '-' && v[2] == '-' {
        assert(v@ =~= dashes());
        true
    } else {
        false
    }
}

/// Splits YAML frontmatter from markdown: the `key: value` pairs of the block between the
/// opening `---` and the next `---` line, and the rest of the text, trimmed.
pub fn extract_yaml_frontmatter(content: &str) -> (r: Option<(StringMap, String)>)
    ensures
        match r {
            Some((m, rest)) => frontmatter(content@) == Some((m@, rest@)),
            None => frontmatter(content@) is None,
        },
{
    let v = chars_of(content);
    let opens = (v.len() >= 4 && v[0] == '-' && v[1] == '-' && v[2] == '-' && v[3] == '\n') || (
    v.len() >= 5 && v[0] == '-' && v[1] == '-' && v[2] == '-' && v[3] == '\r' && v[4] == '\n');
    proof {
        if v@.len() >= 4 {
            if v@.subrange(0, 4) == seq!['-', '-', '-', '\n'] {
                assert(v@[3] == v@.subrange(0, 4)[3]);
            }
        }
        if v@.len() >= 5 {
            if v@.subrange(0, 5) == seq!['-', '-', '-', '\r', '\n'] {
                assert(v@[3] == v@.subrange(0, 5)[3]);
                assert(v@[4] == v@.subrange(0, 5)[4]);
            }
        }
        if opens {
            if v@.len() >= 4 && v@[3] == '\n' {
                assert(v@.subrange(0, 4) =~= seq!['-', '-', '-', '\n']);
            } else {
                assert(v@.subrange(0, 5) =~= seq!['-', '-', '-', '\r', '\n']);
            }
        }
    }
    if !opens {
        return None;
    }
    let ls = lines_of(v.as_slice());
    let ghost lv = vecs_view(ls@);
    if ls.len() == 0 {
        return None;
    }
    let mut e: usize = 1;
    while e < ls.len() && !is_dashes(&ls[e])
        invariant
            1 <= e <= ls@.len(),
            lv == vecs_view(ls@),
            forall|j: int| 1 <= j < e ==> lv[j] != dashes(),
        decreases ls.len() - e,
    {
        e = e + 1;
    }
    proof {
        let t = lv.drop_first();
        assert forall|j: int| 0 <= j < e - 1 implies t[j] != dashes() by {
            assert(t[j] == lv[j + 1]);
        }
        lemma_find_line_skip(t, dashes(), e - 1);
        assert(t.subrange(e - 1, t.len() as int) =~= lv.subrange(e as int, lv.len() as int));
    }
    if e == ls.len() {
        proof {
            assert(lv.subrange(e as int, lv.len() as int) =~= Seq::<Seq<char>>::empty());
        }
        return None;
    }
    proof {
        let t = lv.drop_first();
        let u = lv.subrange(e as int, lv.len() as int);
        assert(u[0] == lv[e as int]);
        assert(find_line(u, dashes()) == Some(0int));
    }
    let mut nl: Vec<char> = Vec::new();
    nl.push('\n');
    assert(nl@ =~= seq!['\n']);
    let block = join_chars(sub_lines(&ls, 1, e).as_slice(), nl.as_slice());
    let fm_lines = lines_of(block.as_slice());
    let ghost fl = vecs_view(fm_lines@);
    let mut meta = StringMap::new();
    let mut i: usize = 0;
    while i < fm_lines.len()
        invariant
            i <= fm_lines@.len(),
            fl == vecs_view(fm_lines@),
            meta@ == meta_map(fl.take(i as int)),
        decreases fm_lines.len() - i,
    {
        let line = &fm_lines[i];
        assert(fl.take(i + 1).drop_last() == fl.take(i as int));
        assert(fl.take(i + 1).last() == line@);
        match find_char_index(line.as_slice(), ':') {
            Some(k) => {
                proof {
                    lemma_find_char(line@, ':');
                }
                let key = trim_chars(sub_chars(line.as_slice(), 0, k).as_slice());
                let after = sub_chars(line.as_slice(), k + 1, line.len());
                let value = trim_char_chars(trim_chars(after.as_slice()).as_slice(), '"');
                assert(line@.take(k as int) == line@.subrange(0, k as int));
                assert(line@.skip(k + 1) == line@.subrange(k + 1, line@.len() as int));
                meta.insert(string_from_chars(key.as_slice()), string_from_chars(value.as_slice()));
            },
            None => {},
        }
        i = i + 1;
    }
    assert(fl.take(fl.len() as int) == fl);
    let tail = join_chars(sub_lines(&ls, e + 1, ls.len()).as_slice(), nl.as_slice());
    let rest = trim_chars(tail.as_slice());
    Some((meta, string_from_chars(rest.as_slice())))
}

/// The name and description of a skill: from its `SKILL.md` frontmatter when it has one
/// (missing fields fall back to the directory name and "No description provided"), else the
/// directory name and "No description provided".
pub open spec fn skill_identity_of(content: Seq<char>, dir_name: Seq<char>) -> (Seq<char>, Seq<char>) {
    match frontmatter(content) {
        Some((m, _)) => (
            if m.contains_key("name"@) {
                m["name"@]
            } else {
                dir_name
            },
            if m.contains_key("description"@) {
                m["description"@]
            } else {
                "No description provided"@
            },
        ),
        None => (dir_name, "No description provided"@),
    }
}

/// The name and description of a skill, from the text of its `SKILL.md` and the name of its
/// directory.
pub fn skill_identity(content: &str, dir_name: &str) -> (r: (String, String))
    ensures
        r.0@ == skill_identity_of(content@, dir_name@).0,
        r.1@ == skill_identity_of(content@, dir_name@).1,
{
    match extract_yaml_frontmatter(content) {
        Some((meta, _)) => {
            let name = match meta.get("name") {
                Some(n) => n.clone(),
                None => owned(dir_name),
            };
            let description = match meta.get("description") {
                Some(d) => d.clone(),
                None => owned("No description provided"),
            };
            (name, description)
        },
        None => (owned(dir_name), owned("No description provided")),
    }
}

/// The skill a directory holds, read from its `SKILL.md`: named and described as
/// `skill_identity` finds, and enabled.
pub fn loaded_skill(content: &str, dir_name: &str) -> (r: Skill)
    ensures
        r.id@ == skill_identity_of(content@, dir_name@).0,
        r.name@ == skill_identity_of(content@, dir_name@).1,
        r.enabled == 1,
{
    let (id, name) = skill_identity(content, dir_name);
    Skill { id, name, enabled: 1 }
}

/// The stored skills that no longer exist on disk: those of `existing` not in `expected`,
/// in the order of `existing`.
pub open spec fn stale_skills(existing: Seq<Seq<char>>, expected: Seq<Seq<char>>) -> Seq<Seq<char>> {
    existing.filter(|id: Seq<char>| !expected.contains(id))
}

/// The stored skills that no longer exist on disk.
pub fn skills_to_delete(existing: &[String], expected: &[String]) -> (r: Vec<String>)
    ensures
        views(r@) == stale_skills(views(existing@), views(expected@)),
{
    let ghost ex = views(existing@);
    let ghost ep = views(expected@);
    let ghost pred = |id: Seq<char>| !ep.contains(id);
    let mut r: Vec<String> = Vec::new();
    let mut i: usize = 0;
    while i < existing.len()
        invariant
            i <= existing@.len(),
            ex == views(existing@),
            ep == views(expected@),
            pred == (|id: Seq<char>| !ep.contains(id)),
            views(r@) == ex.take(i as int).filter(pred),
        decreases existing.len() - i,
    {
        let id = &existing[i];
        let mut found = false;
        let mut j: usize = 0;
        while j < expected.len()
            invariant
                j <= expected@.len(),
                ep == views(expected@),
                found == exists|k: int| 0 <= k < j && ep[k] == id@,
            decreases expected.len() - j,
        {
            assert(ep[j as int] == expected@[j as int]@);
            if str_eq(expected[j].as_str(), id.as_str()) {
                found = true;
            }
            j = j + 1;
        }
        assert(found == ep.contains(id@));
        assert(ex.take(i + 1).drop_last() == ex.take(i as int));
        reveal_with_fuel(Seq::filter, 1);
        let ghost before = r@;
        if !found {
            r.push(id.clone());
            assert(views(r@) =~= views(before).push(id@));
        }
        i = i + 1;
    }
    assert(ex.take(ex.len() as int) == ex);
    r
}

/// A skill is named by the `name` of its frontmatter whenever there is one, whatever else
/// the frontmatter holds, and otherwise by its directory; it is described by the
/// frontmatter's `description` when there is one, else "No description provided".
pub proof fn lemma_skill_identity_from_frontmatter(content: Seq<char>, dir_name: Seq<char>)
    ensures
        frontmatter(content) matches Some((m, _)) ==> {
            &&& m.contains_key("name"@) ==> skill_identity_of(content, dir_name).0 == m["name"@]
            &&& !m.contains_key("name"@) ==> skill_identity_of(content, dir_name).0 == dir_name
            &&& m.contains_key("description"@) ==> skill_identity_of(content, dir_name).1
                == m["description"@]
            &&& !m.contains_key("description"@) ==> skill_identity_of(content, dir_name).1
                == "No description provided"@
        },
        frontmatter(content) is None ==> skill_identity_of(content, dir_name) == (
            dir_name,
            "No description provided"@,
        ),
{
}

} // verus!
