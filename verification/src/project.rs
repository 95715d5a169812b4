//! Projects and the slugs that identify them.

use vstd::prelude::*;

use crate::clock::{now_nanos, valid_time};
use crate::text::{
    all_ascii, ascii_lower, ascii_lower_char, chars_of, is_alnum, is_alphanumeric, is_ascii_alnum,
    is_ascii_char, is_ascii_upper, lower_text, string_from, string_of, to_lowercase,
};

verus! {

/// The maximal runs of alphanumeric characters of `s`, collected from
/// position `i` on, the current unfinished run being `cur`.
pub open spec fn alnum_runs_from(s: Seq<char>, i: int, cur: Seq<char>) -> Seq<Seq<char>>
    decreases s.len() - i,
{
    if i >= s.len() {
        if cur.len() > 0 {
            seq![cur]
        } else {
            seq![]
        }
    } else if !is_alnum(s[i]) {
        if cur.len() > 0 {
            seq![cur] + alnum_runs_from(s, i + 1, seq![])
        } else {
            alnum_runs_from(s, i + 1, seq![])
        }
    } else {
        alnum_runs_from(s, i + 1, cur.push(s[i]))
    }
}

/// The maximal runs of alphanumeric characters of `s`.
pub open spec fn alnum_runs(s: Seq<char>) -> Seq<Seq<char>> {
    alnum_runs_from(s, 0, seq![])
}

/// The words `ws` joined with single dashes.
pub open spec fn join_dash(ws: Seq<Seq<char>>) -> Seq<char>
    decreases ws.len(),
{
    if ws.len() == 0 {
        seq![]
    } else if ws.len() == 1 {
        ws[0]
    } else {
        join_dash(ws.drop_last()) + seq!['-'] + ws.last()
    }
}

/// The slug of a project name: the name lower-cased, each run of
/// characters that are not alphanumeric turned into a single dash, and no
/// dash at either end.
pub open spec fn slug(name: Seq<char>) -> Seq<char> {
    join_dash(alnum_runs(lower_text(name)))
}

/// Whether every character of `s` is ASCII and not an upper-case letter.
pub open spec fn lower_ascii(s: Seq<char>) -> bool {
    forall|k: int| 0 <= k < s.len() ==> is_ascii_char(#[trigger] s[k]) && !is_ascii_upper(s[k])
}

proof fn lemma_runs_lower(s: Seq<char>, i: int, cur: Seq<char>)
    requires
        lower_ascii(s),
        lower_ascii(cur),
        0 <= i,
    ensures
        forall|k: int|
            0 <= k < alnum_runs_from(s, i, cur).len() ==> lower_ascii(
                #[trigger] alnum_runs_from(s, i, cur)[k],
            ),
    decreases s.len() - i,
{
    if i < s.len() {
        if !is_alnum(s[i]) {
            lemma_runs_lower(s, i + 1, seq![]);
            let rest = alnum_runs_from(s, i + 1, seq![]);
            if cur.len() > 0 {
                assert forall|k: int|
                    0 <= k < alnum_runs_from(s, i, cur).len() implies lower_ascii(
                    #[trigger] alnum_runs_from(s, i, cur)[k],
                ) by {
                    assert(alnum_runs_from(s, i, cur) == seq![cur] + rest);
                    if k > 0 {
                        assert(alnum_runs_from(s, i, cur)[k] == rest[k - 1]);
                    } else {
                        assert(alnum_runs_from(s, i, cur)[k] == cur);
                    }
                }
            } else {
                assert(alnum_runs_from(s, i, cur) == rest);
            }
        } else {
            let next = cur.push(s[i]);
            assert(lower_ascii(next)) by {
                assert forall|k: int| 0 <= k < next.len() implies is_ascii_char(#[trigger] next[k])
                    && !is_ascii_upper(next[k]) by {
                    if k < cur.len() {
                        assert(next[k] == cur[k]);
                    }
                }
            }
            lemma_runs_lower(s, i + 1, next);
            assert(alnum_runs_from(s, i, cur) == alnum_runs_from(s, i + 1, next));
        }
    } else {
        if cur.len() > 0 {
            assert(alnum_runs_from(s, i, cur) == seq![cur]);
            assert forall|k: int|
                0 <= k < alnum_runs_from(s, i, cur).len() implies lower_ascii(
                #[trigger] alnum_runs_from(s, i, cur)[k],
            ) by {
                assert(alnum_runs_from(s, i, cur)[k] == cur);
            }
        } else {
            assert(alnum_runs_from(s, i, cur).len() == 0);
        }
    }
}

proof fn lemma_join_lower(ws: Seq<Seq<char>>)
    requires
        forall|k: int| 0 <= k < ws.len() ==> lower_ascii(#[trigger] ws[k]),
    ensures
        lower_ascii(join_dash(ws)),
    decreases ws.len(),
{
    if ws.len() > 1 {
        lemma_join_lower(ws.drop_last());
        let a = join_dash(ws.drop_last());
        let b = ws.last();
        let j = join_dash(ws);
        assert(j == a + seq!['-'] + b);
        assert(lower_ascii(b));
        assert forall|k: int| 0 <= k < j.len() implies is_ascii_char(#[trigger] j[k])
            && !is_ascii_upper(j[k]) by {
            if k < a.len() {
                assert(j[k] == a[k]);
            } else if k == a.len() {
                assert(j[k] == '-');
            } else {
                assert(j[k] == b[k - a.len() - 1]);
            }
        }
    }
}

/// The slug of a project name written in ASCII is its own lookup key: it is
/// ASCII, and lower-casing it (as switching to a project by name does)
/// gives it back, so a project is found again by its id.
pub proof fn law_ascii_slug_is_own_key(name: Seq<char>)
    requires
        all_ascii(name),
    ensures
        all_ascii(slug(name)),
        lower_text(slug(name)) == slug(name),
{
    let l = lower_text(name);
    assert(lower_ascii(l)) by {
        assert forall|k: int| 0 <= k < l.len() implies is_ascii_char(#[trigger] l[k])
            && !is_ascii_upper(l[k]) by {
            assert(l[k] == ascii_lower_char(name[k]));
            assert(is_ascii_char(name[k]));
            if is_ascii_upper(name[k]) {
                assert((ascii_lower_char(name[k]) as u32) == (name[k] as u32) + 32);
            }
        }
    }
    lemma_runs_lower(l, 0, seq![]);
    lemma_join_lower(alnum_runs(l));
    let sl = slug(name);
    assert(ascii_lower(sl) =~= sl);
}

/// Whether every character of `s` is alphabetic or numeric.
pub open spec fn all_alnum(s: Seq<char>) -> bool {
    forall|k: int| 0 <= k < s.len() ==> is_alnum(#[trigger] s[k])
}

/// Every run is a non-empty word of alphanumeric characters.
proof fn lemma_runs_are_words(s: Seq<char>, i: int, cur: Seq<char>)
    requires
        all_alnum(cur),
        0 <= i,
    ensures
        forall|k: int|
            0 <= k < alnum_runs_from(s, i, cur).len() ==> (#[trigger] alnum_runs_from(s, i, cur)[k]).len()
                > 0 && all_alnum(alnum_runs_from(s, i, cur)[k]),
    decreases s.len() - i,
{
    let r = alnum_runs_from(s, i, cur);
    if i < s.len() {
        if !is_alnum(s[i]) {
            lemma_runs_are_words(s, i + 1, seq![]);
            let rest = alnum_runs_from(s, i + 1, seq![]);
            if cur.len() > 0 {
                assert(r == seq![cur] + rest);
                assert forall|k: int| 0 <= k < r.len() implies (#[trigger] r[k]).len() > 0
                    && all_alnum(r[k]) by {
                    if k > 0 {
                        assert(r[k] == rest[k - 1]);
                    } else {
                        assert(r[k] == cur);
                    }
                }
            } else {
                assert(r == rest);
            }
        } else {
            let next = cur.push(s[i]);
            assert(all_alnum(next)) by {
                assert forall|k: int| 0 <= k < next.len() implies is_alnum(#[trigger] next[k]) by {
                    if k < cur.len() {
                        assert(next[k] == cur[k]);
                    }
                }
            }
            lemma_runs_are_words(s, i + 1, next);
            assert(r == alnum_runs_from(s, i + 1, next));
        }
    } else {
        if cur.len() > 0 {
            assert(r == seq![cur]);
            assert forall|k: int| 0 <= k < r.len() implies (#[trigger] r[k]).len() > 0 && all_alnum(
                r[k],
            ) by {
                assert(r[k] == cur);
            }
        } else {
            assert(r.len() == 0);
        }
    }
}

/// Reading runs from `x + y` past `x` is reading them from `y`.
proof fn lemma_runs_shift(x: Seq<char>, y: Seq<char>, j: int, cur: Seq<char>)
    requires
        0 <= j <= y.len(),
    ensures
        alnum_runs_from(x + y, x.len() + j, cur) == alnum_runs_from(y, j, cur),
    decreases y.len() - j,
{
    if j < y.len() {
        assert((x + y)[x.len() + j] == y[j]);
        if is_alnum(y[j]) {
            lemma_runs_shift(x, y, j + 1, cur.push(y[j]));
        } else {
            lemma_runs_shift(x, y, j + 1, seq![]);
        }
    }
}

/// A dash splits the runs: those before it, then those after it.
proof fn lemma_runs_split(a: Seq<char>, b: Seq<char>, i: int, cur: Seq<char>)
    requires
        0 <= i <= a.len(),
    ensures
        alnum_runs_from(a + seq!['-'] + b, i, cur) == alnum_runs_from(a, i, cur) + alnum_runs(b),
    decreases a.len() - i,
{
    let s = a + seq!['-'] + b;
    assert(!is_alnum('-'));
    if i < a.len() {
        assert(s[i] == a[i]);
        if is_alnum(a[i]) {
            lemma_runs_split(a, b, i + 1, cur.push(a[i]));
        } else {
            lemma_runs_split(a, b, i + 1, seq![]);
            if cur.len() > 0 {
                assert(seq![cur] + (alnum_runs_from(a, i + 1, seq![]) + alnum_runs(b)) =~= (seq![cur]
                    + alnum_runs_from(a, i + 1, seq![])) + alnum_runs(b));
            }
        }
    } else {
        assert(s[i] == '-');
        lemma_runs_shift(a + seq!['-'], b, 0, seq![]);
        assert(s =~= (a + seq!['-']) + b);
        if cur.len() > 0 {
            assert(alnum_runs_from(a, i, cur) == seq![cur]);
        } else {
            assert(alnum_runs_from(a, i, cur) == Seq::<Seq<char>>::empty());
            assert(Seq::<Seq<char>>::empty() + alnum_runs(b) =~= alnum_runs(b));
        }
    }
}

/// A word of alphanumeric characters is its own only run.
proof fn lemma_runs_single(x: Seq<char>, i: int, cur: Seq<char>)
    requires
        0 <= i <= x.len(),
        all_alnum(x),
        cur.len() + x.len() - i > 0,
    ensures
        alnum_runs_from(x, i, cur) == seq![cur + x.skip(i)],
    decreases x.len() - i,
{
    if i < x.len() {
        lemma_runs_single(x, i + 1, cur.push(x[i]));
        assert(cur.push(x[i]) + x.skip(i + 1) =~= cur + x.skip(i));
    } else {
        assert(cur + x.skip(i) =~= cur);
    }
}

/// Joining words with dashes and splitting the result into runs gives the
/// words back.
proof fn lemma_runs_of_joined(ws: Seq<Seq<char>>)
    requires
        forall|k: int| 0 <= k < ws.len() ==> (#[trigger] ws[k]).len() > 0 && all_alnum(ws[k]),
    ensures
        alnum_runs(join_dash(ws)) == ws,
    decreases ws.len(),
{
    if ws.len() == 1 {
        lemma_runs_single(ws[0], 0, seq![]);
        assert(Seq::<char>::empty() + ws[0].skip(0) =~= ws[0]);
        assert(ws =~= seq![ws[0]]);
    } else if ws.len() > 1 {
        let front = ws.drop_last();
        lemma_runs_of_joined(front);
        let a = join_dash(front);
        let b = ws.last();
        lemma_runs_split(a, b, 0, seq![]);
        lemma_runs_single(b, 0, seq![]);
        assert(Seq::<char>::empty() + b.skip(0) =~= b);
        assert(ws =~= front + seq![b]);
    }
}

/// Slugs of ASCII names are fixed points: the slug of a slug is itself, so
/// a project created from another project's id gets that same id.
pub proof fn law_ascii_slug_is_stable(name: Seq<char>)
    requires
        all_ascii(name),
    ensures
        slug(slug(name)) == slug(name),
{
    law_ascii_slug_is_own_key(name);
    let runs = alnum_runs(lower_text(name));
    lemma_runs_are_words(lower_text(name), 0, seq![]);
    lemma_runs_of_joined(runs);
}

/// The characters a slug is made of: ASCII lower-case letters, digits and
/// the dash.
pub open spec fn slug_char(c: char) -> bool {
    c == '-' || 48 <= (c as u32) <= 57 || 97 <= (c as u32) <= 122
}

/// The shape of a slug: only lower-case letters, digits and dashes, no dash
/// at either end and no two dashes in a row.
pub open spec fn slug_shaped(s: Seq<char>) -> bool {
    &&& forall|k: int| 0 <= k < s.len() ==> slug_char(#[trigger] s[k])
    &&& s.len() > 0 ==> s[0] != '-' && s.last() != '-'
    &&& forall|k: int| 0 <= k < s.len() - 1 ==> !(#[trigger] s[k] == '-' && s[k + 1] == '-')
}

/// Whether `w` is a word of a slug: non-empty, of lower-case letters and
/// digits only.
spec fn slug_word(w: Seq<char>) -> bool {
    w.len() > 0 && forall|k: int| 0 <= k < w.len() ==> slug_char(#[trigger] w[k]) && w[k] != '-'
}

proof fn lemma_join_shaped(ws: Seq<Seq<char>>)
    requires
        forall|k: int| 0 <= k < ws.len() ==> slug_word(#[trigger] ws[k]),
    ensures
        slug_shaped(join_dash(ws)),
        join_dash(ws).len() == 0 <==> ws.len() == 0,
    decreases ws.len(),
{
    if ws.len() == 1 {
        assert(slug_word(ws[0]));
    } else if ws.len() > 1 {
        let front = ws.drop_last();
        lemma_join_shaped(front);
        let a = join_dash(front);
        let b = ws.last();
        assert(slug_word(b));
        let j = join_dash(ws);
        assert(j == a + seq!['-'] + b);
        assert forall|k: int| 0 <= k < j.len() implies slug_char(#[trigger] j[k]) by {
            if k < a.len() {
                assert(j[k] == a[k]);
            } else if k > a.len() {
                assert(j[k] == b[k - a.len() - 1]);
            }
        }
        assert(j[0] == a[0]);
        assert(j.last() == b.last());
        assert forall|k: int| 0 <= k < j.len() - 1 implies !(#[trigger] j[k] == '-' && j[k + 1]
            == '-') by {
            if k + 1 < a.len() {
                assert(j[k] == a[k] && j[k + 1] == a[k + 1]);
            } else if k + 1 == a.len() {
                assert(j[k] == a.last());
            } else if k == a.len() {
                assert(j[k + 1] == b[0]);
            } else {
                assert(j[k] == b[k - a.len() - 1]);
            }
        }
    }
}

/// No runs are read exactly when no alphanumeric character is met and none
/// is pending.
proof fn lemma_runs_empty(s: Seq<char>, i: int, cur: Seq<char>)
    requires
        0 <= i,
    ensures
        alnum_runs_from(s, i, cur).len() == 0 <==> (cur.len() == 0 && forall|k: int|
            i <= k < s.len() ==> !is_alnum(#[trigger] s[k])),
    decreases s.len() - i,
{
    if i < s.len() {
        if is_alnum(s[i]) {
            lemma_runs_empty(s, i + 1, cur.push(s[i]));
        } else {
            lemma_runs_empty(s, i + 1, seq![]);
        }
    }
}

/// The slug of an ASCII name has the shape of a slug: only lower-case
/// letters, digits and dashes, no dash at either end, no two dashes in a
/// row; and it is empty exactly when the name holds no ASCII letter or
/// digit.
pub proof fn law_ascii_slug_shape(name: Seq<char>)
    requires
        all_ascii(name),
    ensures
        slug_shaped(slug(name)),
        slug(name).len() == 0 <==> forall|k: int|
            0 <= k < name.len() ==> !is_ascii_alnum(#[trigger] name[k]),
{
    let l = lower_text(name);
    assert(lower_ascii(l)) by {
        assert forall|k: int| 0 <= k < l.len() implies is_ascii_char(#[trigger] l[k])
            && !is_ascii_upper(l[k]) by {
            assert(l[k] == ascii_lower_char(name[k]));
            assert(is_ascii_char(name[k]));
            if is_ascii_upper(name[k]) {
                assert((ascii_lower_char(name[k]) as u32) == (name[k] as u32) + 32);
            }
        }
    }
    assert forall|k: int| 0 <= k < l.len() implies (is_alnum(#[trigger] l[k]) <==> is_ascii_alnum(
        name[k],
    )) by {
        assert(l[k] == ascii_lower_char(name[k]));
        assert(is_ascii_char(name[k]));
        if is_ascii_upper(name[k]) {
            assert((ascii_lower_char(name[k]) as u32) == (name[k] as u32) + 32);
        }
    }
    let runs = alnum_runs(l);
    lemma_runs_lower(l, 0, seq![]);
    lemma_runs_are_words(l, 0, seq![]);
    assert forall|k: int| 0 <= k < runs.len() implies slug_word(#[trigger] runs[k]) by {
        let w = runs[k];
        assert(lower_ascii(w));
        assert(all_alnum(w));
        assert forall|m: int| 0 <= m < w.len() implies slug_char(#[trigger] w[m]) && w[m] != '-' by {
            assert(is_alnum(w[m]) && is_ascii_char(w[m]) && !is_ascii_upper(w[m]));
        }
    }
    lemma_join_shaped(runs);
    lemma_runs_empty(l, 0, seq![]);
    if slug(name).len() == 0 {
        assert forall|k: int| 0 <= k < name.len() implies !is_ascii_alnum(#[trigger] name[k]) by {
            assert(!is_alnum(l[k]));
        }
    } else {
        if forall|k: int| 0 <= k < name.len() ==> !is_ascii_alnum(#[trigger] name[k]) {
            assert forall|k: int| 0 <= k < l.len() implies !is_alnum(#[trigger] l[k]) by {
                assert(!is_ascii_alnum(name[k]));
            }
        }
    }
}

/// The character sequences held by a vector of character vectors.
pub open spec fn seqs_of(w: Seq<Vec<char>>) -> Seq<Seq<char>> {
    w.map_values(|x: Vec<char>| x@)
}

/// The maximal runs of alphanumeric characters of `s`.
fn alnum_runs_exec(s: &[char]) -> (runs: Vec<Vec<char>>)
    ensures
        seqs_of(runs@) == alnum_runs(s@),
{
    let mut runs: Vec<Vec<char>> = Vec::new();
    let mut cur: Vec<char> = Vec::new();
    let mut i: usize = 0;
    while i < s.len()
        invariant
            i <= s@.len(),
            seqs_of(runs@) + alnum_runs_from(s@, i as int, cur@) == alnum_runs(s@),
        decreases s@.len() - i,
    {
        let c = s[i];
        if !is_alphanumeric(c) {
            if cur.len() > 0 {
                let ghost old_runs = seqs_of(runs@);
                let ghost old_cur = cur@;
                runs.push(cur);
                cur = Vec::new();
                assert(seqs_of(runs@) =~= old_runs.push(old_cur));
                assert(old_runs + (seq![old_cur] + alnum_runs_from(s@, i + 1, seq![]))
                    =~= old_runs.push(old_cur) + alnum_runs_from(s@, i + 1, seq![]));
            }
            assert(cur@ =~= Seq::<char>::empty());
        } else {
            cur.push(c);
        }
        i = i + 1;
    }
    if cur.len() > 0 {
        let ghost old_runs = seqs_of(runs@);
        let ghost old_cur = cur@;
        runs.push(cur);
        assert(seqs_of(runs@) =~= old_runs.push(old_cur));
        assert(old_runs + seq![old_cur] =~= old_runs.push(old_cur));
    } else {
        assert(seqs_of(runs@) + Seq::<Seq<char>>::empty() =~= seqs_of(runs@));
    }
    runs
}

/// The words `ws` joined with single dashes.
fn join_dash_exec(ws: &Vec<Vec<char>>) -> (r: Vec<char>)
    ensures
        r@ == join_dash(seqs_of(ws@)),
{
    let mut r: Vec<char> = Vec::new();
    let mut i: usize = 0;
    while i < ws.len()
        invariant
            i <= ws@.len(),
            r@ == join_dash(seqs_of(ws@).take(i as int)),
        decreases ws@.len() - i,
    {
        let ghost prev = r@;
        if i > 0 {
            r.push('-');
        }
        let w = &ws[i];
        let mut j: usize = 0;
        while j < w.len()
            invariant
                j <= w@.len(),
                w == ws@[i as int],
                r@ == (if i > 0 {
                    prev + seq!['-']
                } else {
                    prev
                }) + w@.take(j as int),
            decreases w@.len() - j,
        {
            r.push(w[j]);
            assert(w@.take(j as int).push(w@[j as int]) == w@.take(j + 1));
            j = j + 1;
        }
        assert(w@.take(w@.len() as int) == w@);
        assert(seqs_of(ws@).take(i + 1).drop_last() =~= seqs_of(ws@).take(i as int));
        assert(seqs_of(ws@).take(i + 1).last() == w@);
        if i == 0 {
            assert(seqs_of(ws@).take(1) =~= seq![w@]);
            assert(prev =~= Seq::<char>::empty());
            assert(r@ =~= w@);
        }
        i = i + 1;
    }
    assert(seqs_of(ws@).take(ws@.len() as int) =~= seqs_of(ws@));
    r
}

/// The slug of a project name: lower-cased, every run of characters that
/// are not alphanumeric replaced by one dash, without dashes at the ends.
pub fn slugify(name: &str) -> (r: String)
    ensures
        r@ == slug(name@),
{
    let lower = to_lowercase(name);
    let cs = chars_of(lower.as_str());
    let runs = alnum_runs_exec(cs.as_slice());
    let joined = join_dash_exec(&runs);
    string_of(joined.as_slice())
}

/// A project that groups tasks.  Points in time are nanoseconds since the
/// epoch.
#[derive(Debug, Clone)]
pub struct Project {
    /// Identifier: the slug of the name.
    pub id: String,
    /// Display name.
    pub name: String,
    /// Optional description.
    pub description: Option<String>,
    /// When the project was created.
    pub created_at: i128,
    /// When the project was last changed.
    pub updated_at: i128,
}

impl Project {
    /// Whether all points in time of the project are representable.
    pub open spec fn wf(&self) -> bool {
        valid_time(self.created_at as int) && valid_time(self.updated_at as int)
    }

    /// A new project named `name`, created at `now`.
    pub fn new_at(name: &str, now: i128) -> (p: Project)
        requires
            valid_time(now as int),
        ensures
            p.wf(),
            p.id@ == slug(name@),
            p.name@ == name@,
            p.description is None,
            p.created_at == now,
            p.updated_at == now,
    {
        Project {
            id: slugify(name),
            name: string_from(name),
            description: None,
            created_at: now,
            updated_at: now,
        }
    }

    /// A new project named `name`, created now.
    pub fn new(name: &str) -> (p: Project)
        ensures
            p.wf(),
            p.id@ == slug(name@),
            p.name@ == name@,
            p.description is None,
            p.created_at == p.updated_at,
            valid_time(p.created_at as int),
    {
        let now = now_nanos();
        Project::new_at(name, now)
    }

    /// A new project named `name` with a description, created now.
    pub fn with_description(name: &str, description: &str) -> (p: Project)
        ensures
            p.wf(),
            p.id@ == slug(name@),
            p.name@ == name@,
            p.description is Some,
            p.description->0@ == description@,
            p.created_at == p.updated_at,
            valid_time(p.created_at as int),
    {
        let mut p = Project::new(name);
        p.description = Some(string_from(description));
        p
    }

    /// The slug of a project name (see `slugify`).
    pub fn slugify(name: &str) -> (r: String)
        ensures
            r@ == slug(name@),
    {
        slugify(name)
    }
}

} // verus!
