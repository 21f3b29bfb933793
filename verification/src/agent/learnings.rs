//! Cross-session learnings: short insights an agent carries from one session
//! to the next, kept as a Markdown bullet list.

use vstd::prelude::*;
use vstd::string::StringExecFns;
use crate::text::{
    chars_to_string, is_ws, lemma_filter_map_add, lemma_split_on_join, lemma_split_on_no_sep,
    lemma_trim_last, lines, lines_of, slice_chars, split_on, starts_with, str_chars, trim, trim_chars,
    trim_end, trim_start, views,
};

verus! {

/// How many learnings `add` keeps.
pub const MAX_LEARNINGS: usize = 20;

/// The learning a line carries: after trimming, a line that starts with `- `
/// or `* ` carries the rest of the line.
pub open spec fn learning_of(line: Seq<char>) -> Option<Seq<char>> {
    let t = trim(line);
    if "- "@.is_prefix_of(t) || "* "@.is_prefix_of(t) {
        Some(t.skip(2))
    } else {
        None
    }
}

/// The learnings a text carries, one per bullet line, in order.
pub open spec fn learnings_in(content: Seq<char>) -> Seq<Seq<char>> {
    lines(content).filter_map(|l: Seq<char>| learning_of(l))
}

/// The learnings after adding one: the oldest is dropped first when
/// `MAX_LEARNINGS` are already held.
pub open spec fn after_add(ls: Seq<Seq<char>>, l: Seq<char>) -> Seq<Seq<char>> {
    if ls.len() >= MAX_LEARNINGS {
        ls.drop_first().push(l)
    } else {
        ls.push(l)
    }
}

/// The learnings after adding each of `xs` in turn.
pub open spec fn after_adds(ls: Seq<Seq<char>>, xs: Seq<Seq<char>>) -> Seq<Seq<char>>
    decreases xs.len(),
{
    if xs.len() == 0 {
        ls
    } else {
        after_add(after_adds(ls, xs.drop_last()), xs.last())
    }
}

/// Adding learnings one by one to a store that holds at most
/// `MAX_LEARNINGS` keeps exactly the newest `MAX_LEARNINGS` of all the
/// learnings it has seen, oldest first.
pub proof fn law_keeps_newest(ls: Seq<Seq<char>>, xs: Seq<Seq<char>>)
    requires
        ls.len() <= MAX_LEARNINGS,
    ensures
        after_adds(ls, xs) == (ls + xs).skip(
            if ls.len() + xs.len() > MAX_LEARNINGS {
                ls.len() + xs.len() - MAX_LEARNINGS
            } else {
                0
            },
        ),
    decreases xs.len(),
{
    let m = MAX_LEARNINGS as int;
    if xs.len() == 0 {
        assert((ls + xs).skip(0) =~= ls);
    } else {
        let xs1 = xs.drop_last();
        law_keeps_newest(ls, xs1);
        let n1 = ls.len() + xs1.len();
        let d1 = if n1 > m { n1 - m } else { 0 };
        let a = after_adds(ls, xs1);
        assert(ls + xs =~= (ls + xs1).push(xs.last()));
        if n1 >= m {
            assert(a.drop_first().push(xs.last()) =~= (ls + xs).skip(d1 + 1));
        } else {
            assert(a.push(xs.last()) =~= (ls + xs).skip(0));
        }
    }
}

/// The bullet lines that persist the learnings, one `- {learning}` line each.
pub open spec fn rendered_entries(ls: Seq<Seq<char>>) -> Seq<char>
    decreases ls.len(),
{
    if ls.len() == 0 {
        Seq::empty()
    } else {
        rendered_entries(ls.drop_last()) + "- "@ + ls.last() + "\n"@
    }
}

/// The text that persists the learnings: a heading, a blank line, then one
/// bullet line per learning.
pub open spec fn rendered(ls: Seq<Seq<char>>) -> Seq<char> {
    "# Agent Learnings\n\n"@ + rendered_entries(ls)
}

/// A learning that survives being written and read back: non-empty, on one
/// line, and without surrounding whitespace.
pub open spec fn persistable(l: Seq<char>) -> bool {
    l.len() > 0 && !l.contains('\n') && trim(l) == l
}

/// The persisted text always ends a line.
proof fn lemma_rendered_ends_line(ls: Seq<Seq<char>>)
    ensures
        rendered(ls).len() > 0,
        rendered(ls).last() == '\n',
    decreases ls.len(),
{
    reveal_strlit("# Agent Learnings\n\n");
    reveal_strlit("\n");
    if ls.len() > 0 {
        let ls1 = ls.drop_last();
        assert(rendered(ls) =~= rendered(ls1) + "- "@ + ls.last() + "\n"@);
    }
}

/// The lines of the persisted text: the heading, the blank line, then one
/// bullet line per learning, and the empty piece after the final newline.
proof fn lemma_split_rendered(ls: Seq<Seq<char>>)
    requires
        forall|k: int| 0 <= k < ls.len() ==> !(#[trigger] ls[k]).contains('\n'),
    ensures
        split_on(rendered(ls), '\n') == seq!["# Agent Learnings"@, Seq::<char>::empty()]
            + ls.map_values(|l: Seq<char>| "- "@ + l) + seq![Seq::<char>::empty()],
    decreases ls.len(),
{
    reveal_strlit("# Agent Learnings\n\n");
    reveal_strlit("# Agent Learnings");
    reveal_strlit("- ");
    reveal_strlit("\n");
    let h = "# Agent Learnings"@;
    let e = Seq::<char>::empty();
    assert forall|k: int| 0 <= k < h.len() implies h[k] != '\n' by {}
    lemma_split_on_no_sep(h, '\n');
    if ls.len() == 0 {
        let lit = "# Agent Learnings\n\n"@;
        assert(lit =~= h + seq!['\n'] + e + seq!['\n'] + e);
        lemma_split_on_join(h + seq!['\n'] + e, e, '\n');
        lemma_split_on_join(h, e, '\n');
        assert(rendered(ls) =~= lit);
        assert(split_on(rendered(ls), '\n') =~= seq![h, e] + ls.map_values(
            |l: Seq<char>| "- "@ + l,
        ) + seq![e]);
    } else {
        let ls1 = ls.drop_last();
        let l = ls.last();
        let m = "- "@ + l;
        assert forall|k: int| 0 <= k < ls1.len() implies !(#[trigger] ls1[k]).contains('\n') by {
            assert(ls1[k] == ls[k]);
        }
        lemma_split_rendered(ls1);
        lemma_rendered_ends_line(ls1);
        let r1 = rendered(ls1);
        let w = r1.drop_last();
        assert(r1 =~= w + seq!['\n'] + e);
        lemma_split_on_join(w, e, '\n');
        assert(!ls[ls.len() - 1].contains('\n'));
        assert forall|k: int| 0 <= k < m.len() implies m[k] != '\n' by {
            if k >= 2 {
                assert(m[k] == l[k - 2]);
            }
        }
        lemma_split_on_no_sep(m, '\n');
        assert(rendered(ls) =~= w + seq!['\n'] + m + seq!['\n'] + e);
        lemma_split_on_join(w + seq!['\n'] + m, e, '\n');
        lemma_split_on_join(w, m, '\n');
        let b1 = ls1.map_values(|x: Seq<char>| "- "@ + x);
        assert(split_on(w, '\n') =~= split_on(r1, '\n').drop_last());
        assert(ls.map_values(|x: Seq<char>| "- "@ + x) =~= b1.push(m));
        assert(split_on(rendered(ls), '\n') =~= seq![h, e] + ls.map_values(
            |x: Seq<char>| "- "@ + x,
        ) + seq![e]);
    }
}

/// The bullet line of a persistable learning carries that learning.
proof fn lemma_bullet_line(l: Seq<char>)
    requires
        persistable(l),
    ensures
        learning_of("- "@ + l) == Some(l),
{
    reveal_strlit("- ");
    let m = "- "@ + l;
    lemma_trim_last(l);
    assert(!is_ws(l.last()));
    assert(trim_start(m) == m);
    assert(m.last() == l.last());
    assert(trim_end(m) == m);
    assert(m.subrange(0, 2) =~= "- "@);
    assert(m.skip(2) =~= l);
}

/// The bullet lines of persistable learnings carry exactly those learnings.
proof fn lemma_bullet_lines(ls: Seq<Seq<char>>)
    requires
        forall|k: int| 0 <= k < ls.len() ==> persistable(#[trigger] ls[k]),
    ensures
        ls.map_values(|l: Seq<char>| "- "@ + l).filter_map(|l: Seq<char>| learning_of(l)) == ls,
    decreases ls.len(),
{
    let b = ls.map_values(|l: Seq<char>| "- "@ + l);
    if ls.len() == 0 {
        assert(b.filter_map(|l: Seq<char>| learning_of(l)) =~= ls);
    } else {
        let ls1 = ls.drop_last();
        assert forall|k: int| 0 <= k < ls1.len() implies persistable(#[trigger] ls1[k]) by {
            assert(ls1[k] == ls[k]);
        }
        lemma_bullet_lines(ls1);
        assert(b.drop_last() =~= ls1.map_values(|l: Seq<char>| "- "@ + l));
        assert(persistable(ls[ls.len() - 1]));
        lemma_bullet_line(ls.last());
        assert(b.filter_map(|l: Seq<char>| learning_of(l)) =~= ls);
    }
}

/// What `render` writes, `parse_learnings` reads back unchanged, whenever
/// every learning is persistable.
pub proof fn law_persist_round_trip(ls: Seq<Seq<char>>)
    requires
        forall|k: int| 0 <= k < ls.len() ==> persistable(#[trigger] ls[k]),
    ensures
        learnings_in(rendered(ls)) == ls,
{
    reveal_strlit("# Agent Learnings");
    reveal_strlit("- ");
    reveal_strlit("* ");
    let h = "# Agent Learnings"@;
    let e = Seq::<char>::empty();
    let f = |l: Seq<char>| learning_of(l);
    assert forall|k: int| 0 <= k < ls.len() implies !(#[trigger] ls[k]).contains('\n') by {
        assert(persistable(ls[k]));
    }
    lemma_split_rendered(ls);
    let b = ls.map_values(|l: Seq<char>| "- "@ + l);
    assert(lines(rendered(ls)) =~= seq![h, e] + b);
    lemma_filter_map_add(seq![h, e], b, f);
    assert(trim_start(h) == h);
    assert(trim_end(h) == h);
    assert(!"- "@.is_prefix_of(h)) by {
        if "- "@.is_prefix_of(h) {
            assert("- "@[0] == h.subrange(0, 2)[0]);
        }
    }
    assert(!"* "@.is_prefix_of(h)) by {
        if "* "@.is_prefix_of(h) {
            assert("* "@[0] == h.subrange(0, 2)[0]);
        }
    }
    assert(f(h) is None);
    assert(trim(e) =~= e);
    assert(f(e) is None);
    assert(seq![h, e].drop_last() =~= seq![h]);
    assert(seq![h].drop_last() =~= Seq::<Seq<char>>::empty());
    assert(seq![h, e].last() == e);
    assert(seq![h].last() == h);
    assert(Seq::<Seq<char>>::empty().filter_map(f) =~= Seq::<Seq<char>>::empty());
    assert(seq![h].filter_map(f) =~= Seq::<Seq<char>>::empty());
    assert(seq![h, e].filter_map(f) =~= Seq::<Seq<char>>::empty());
    lemma_bullet_lines(ls);
    assert(learnings_in(rendered(ls)) =~= ls);
}

/// The newest `MAX_LEARNINGS` of some learnings, oldest first: all of them
/// when there are no more than that.
pub open spec fn newest(ls: Seq<Seq<char>>) -> Seq<Seq<char>> {
    if ls.len() > MAX_LEARNINGS {
        ls.skip(ls.len() - MAX_LEARNINGS)
    } else {
        ls
    }
}

/// Persistent learnings store, holding at most `MAX_LEARNINGS` learnings.
pub struct LearningsStore {
    path: String,
    learnings: Vec<String>,
}

impl View for LearningsStore {
    type V = Seq<Seq<char>>;

    /// The learnings, oldest first.
    closed spec fn view(&self) -> Seq<Seq<char>> {
        self.learnings@.map_values(|s: String| s@)
    }
}

impl LearningsStore {
    #[verifier::type_invariant]
    closed spec fn bounded(&self) -> bool {
        self.learnings@.len() <= MAX_LEARNINGS
    }

    /// Where the store persists; empty for a store kept in memory.
    pub closed spec fn path_view(&self) -> Seq<char> {
        self.path@
    }

    /// An empty store kept in memory.
    pub fn new_in_memory() -> (r: Self)
        ensures
            r@ == Seq::<Seq<char>>::empty(),
            r.path_view() == Seq::<char>::empty(),
    {
        let r = LearningsStore { path: String::new(), learnings: Vec::new() };
        assert(r@ =~= Seq::<Seq<char>>::empty());
        r
    }

    /// A store persisted at `path` whose file holds `content`: the newest
    /// `MAX_LEARNINGS` learnings the file carries.
    pub fn loaded(path: &str, content: &str) -> (r: Self)
        ensures
            r@ == newest(learnings_in(content@)),
            r@.len() <= MAX_LEARNINGS,
            r.path_view() == path@,
    {
        let all = Self::parse_learnings(content);
        let ghost ls = all@.map_values(|s: String| s@);
        let start: usize = if all.len() > MAX_LEARNINGS {
            all.len() - MAX_LEARNINGS
        } else {
            0
        };
        let mut kept: Vec<String> = Vec::new();
        let mut i: usize = start;
        while i < all.len()
            invariant
                start <= i <= all@.len(),
                start == (if all@.len() > MAX_LEARNINGS { all@.len() - MAX_LEARNINGS } else { 0 }),
                ls == all@.map_values(|s: String| s@),
                kept@.map_values(|s: String| s@) == ls.subrange(start as int, i as int),
            decreases all.len() - i,
        {
            let ghost before = kept@;
            let x = all[i].clone();
            assert(x@ == ls[i as int]);
            kept.push(x);
            proof {
                assert(kept@.map_values(|s: String| s@) =~= before.map_values(|s: String| s@).push(x@));
                assert(ls.subrange(start as int, i + 1) =~= ls.subrange(start as int, i as int).push(
                    ls[i as int],
                ));
            }
            i = i + 1;
        }
        assert(ls.subrange(start as int, ls.len() as int) =~= newest(ls));
        LearningsStore { path: String::from_str(path), learnings: kept }
    }

    /// The learnings a text carries, one per bullet line, in order.
    pub fn parse_learnings(content: &str) -> (r: Vec<String>)
        ensures
            r@.map_values(|s: String| s@) == learnings_in(content@),
    {
        let ls = lines_of(&str_chars(content));
        let dash = str_chars("- ");
        let star = str_chars("* ");
        let mut out: Vec<String> = Vec::new();
        let mut i: usize = 0;
        proof {
            reveal_strlit("- ");
            reveal_strlit("* ");
        }
        while i < ls.len()
            invariant
                i <= ls@.len(),
                dash@ == "- "@,
                star@ == "* "@,
                dash@.len() == 2,
                star@.len() == 2,
                out@.map_values(|s: String| s@) == views(ls@).take(i as int).filter_map(
                    |l: Seq<char>| learning_of(l),
                ),
            decreases ls.len() - i,
        {
            let ghost vs = views(ls@);
            proof {
                assert(vs.take(i + 1).drop_last() =~= vs.take(i as int));
                assert(vs.take(i + 1).last() == ls@[i as int]@);
            }
            let t = trim_chars(&ls[i]);
            if starts_with(&t, &dash) || starts_with(&t, &star) {
                let rest = slice_chars(&t, 2, t.len());
                assert(rest@ =~= t@.skip(2));
                let ghost before = out@;
                out.push(chars_to_string(&rest));
                proof {
                    assert(out@.map_values(|s: String| s@) =~= before.map_values(|s: String| s@)
                        + seq![rest@]);
                }
            }
            i = i + 1;
        }
        assert(views(ls@).take(ls@.len() as int) =~= views(ls@));
        out
    }

    /// Adds a learning, dropping the oldest when `MAX_LEARNINGS` are held.
    pub fn add(&mut self, learning: String)
        ensures
            final(self)@ == after_add(old(self)@, learning@),
            final(self)@.len() <= MAX_LEARNINGS,
            final(self).path_view() == old(self).path_view(),
    {
        proof {
            use_type_invariant(&*self);
        }
        let mut ls: Vec<String> = Vec::new();
        std::mem::swap(&mut ls, &mut self.learnings);
        let ghost before = ls@;
        if ls.len() >= MAX_LEARNINGS {
            let _ = ls.remove(0);
        }
        let ghost mid = ls@;
        ls.push(learning);
        proof {
            let f = |s: String| s@;
            if before.len() >= MAX_LEARNINGS {
                assert(mid =~= before.drop_first());
                assert(before.drop_first().map_values(f) =~= before.map_values(f).drop_first());
            }
            assert(ls@.map_values(f) =~= mid.map_values(f).push(learning@));
        }
        self.learnings = ls;
    }

    /// The learnings, oldest first.
    pub fn get_active(&self) -> (r: &[String])
        ensures
            r@.map_values(|s: String| s@) == self@,
            r@.len() <= MAX_LEARNINGS,
    {
        proof {
            use_type_invariant(self);
        }
        self.learnings.as_slice()
    }

    /// How many learnings are held.
    pub fn count(&self) -> (r: usize)
        ensures
            r == self@.len(),
            r <= MAX_LEARNINGS,
    {
        proof {
            use_type_invariant(self);
        }
        self.learnings.len()
    }

    /// Drops every learning.
    pub fn clear(&mut self)
        ensures
            final(self)@ == Seq::<Seq<char>>::empty(),
            final(self).path_view() == old(self).path_view(),
    {
        self.learnings = Vec::new();
        assert(self@ =~= Seq::<Seq<char>>::empty());
    }

    /// Where the store persists; empty for a store kept in memory.
    pub fn path(&self) -> (r: &str)
        ensures
            r@ == self.path_view(),
    {
        self.path.as_str()
    }

    /// Whether the store is kept in memory only, so that persisting writes
    /// nothing.
    pub fn is_in_memory(&self) -> (r: bool)
        ensures
            r == (self.path_view().len() == 0),
    {
        self.path.as_str().is_empty()
    }

    /// The text that persists the learnings.
    pub fn render(&self) -> (r: String)
        ensures
            r@ == rendered(self@),
    {
        let mut out = String::from_str("# Agent Learnings\n\n");
        let mut i: usize = 0;
        while i < self.learnings.len()
            invariant
                i <= self.learnings@.len(),
                out@ == "# Agent Learnings\n\n"@ + rendered_entries(self@.take(i as int)),
            decreases self.learnings.len() - i,
        {
            proof {
                assert(self@.take(i + 1).drop_last() =~= self@.take(i as int));
                assert(self@.take(i + 1).last() == self.learnings@[i as int]@);
            }
            out = out.concat("- ").concat(self.learnings[i].as_str()).concat("\n");
            i = i + 1;
        }
        assert(self@.take(self@.len() as int) =~= self@);
        out
    }
}

/// A line whose trimmed text is `- {text}` or `* {text}` carries `{text}`
/// as a learning; a line whose trimmed text starts with neither marker
/// carries none.
pub proof fn law_bullet_lines_carry_learnings(line: Seq<char>, text: Seq<char>)
    ensures
        (trim(line) == "- "@ + text || trim(line) == "* "@ + text) ==> learning_of(line) == Some(
            text,
        ),
        (!"- "@.is_prefix_of(trim(line)) && !"* "@.is_prefix_of(trim(line))) ==> learning_of(line)
            is None,
{
    reveal_strlit("- ");
    reveal_strlit("* ");
    let t = trim(line);
    if t == "- "@ + text {
        assert(t.take(2) =~= "- "@);
        assert(t.skip(2) =~= text);
    }
    if t == "* "@ + text {
        assert(t.take(2) =~= "* "@);
        assert(t.skip(2) =~= text);
    }
}

} // verus!
