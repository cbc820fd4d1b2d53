//! The class-list model.
//!
//! The class-toggling behaviors never consult the real tree: they work on
//! a snapshot of the element's class list and hand the host exact lists of
//! classes to add or remove.  Class configuration arrives as one
//! space-separated string, split here.

use vstd::prelude::*;

verus! {

/// Length of the leading run of non-space characters.
pub open spec fn token_len(s: Seq<char>) -> nat
    decreases s.len(),
{
    if s.len() == 0 || s[0] == ' ' {
        0
    } else {
        (1 + token_len(s.drop_first())) as nat
    }
}

proof fn lemma_token_len_le(s: Seq<char>)
    ensures
        token_len(s) <= s.len(),
    decreases s.len(),
{
    if s.len() == 0 || s[0] == ' ' {
    } else {
        lemma_token_len_le(s.drop_first());
    }
}

/// The leading token ends exactly at the first space (or at the end).
proof fn lemma_token_len_is(s: Seq<char>, k: int)
    requires
        0 <= k <= s.len(),
        forall|m: int| 0 <= m < k ==> s[m] != ' ',
        k == s.len() || s[k] == ' ',
    ensures
        token_len(s) == k,
    decreases s.len(),
{
    if k == 0 {
    } else {
        assert(s[0] != ' ');
        lemma_token_len_is(s.drop_first(), k - 1);
    }
}

/// The classes named by a space-separated class string, in order.
pub open spec fn split_classes_spec(s: Seq<char>) -> Seq<Seq<char>>
    decreases s.len(),
    via split_classes_spec_decreases
{
    if s.len() == 0 {
        Seq::empty()
    } else if s[0] == ' ' {
        split_classes_spec(s.drop_first())
    } else {
        seq![s.subrange(0, token_len(s) as int)] + split_classes_spec(
            s.subrange(token_len(s) as int, s.len() as int),
        )
    }
}

#[via_fn]
proof fn split_classes_spec_decreases(s: Seq<char>) {
    lemma_token_len_le(s);
}

/// Peeling the leading token shortens the string by at least that token.
proof fn lemma_split_step(s: Seq<char>)
    requires
        s.len() > 0,
        s[0] != ' ',
    ensures
        split_classes_spec(s) == seq![s.subrange(0, token_len(s) as int)] + split_classes_spec(
            s.subrange(token_len(s) as int, s.len() as int),
        ),
        1 <= token_len(s) <= s.len(),
{
    lemma_token_len_le(s);
}

/// Splits a space-separated class string into the classes it names.
pub fn split_classes(s: &str) -> (r: Vec<String>)
    ensures
        r.deep_view() == split_classes_spec(s@),
{
    let n: usize = s.unicode_len();
    let mut toks: Vec<String> = Vec::new();
    proof {
        assert(s@.subrange(0, n as int) =~= s@);
        assert(toks.deep_view() =~= Seq::<Seq<char>>::empty());
        assert(Seq::<Seq<char>>::empty() + split_classes_spec(s@) =~= split_classes_spec(s@));
    }
    let mut i: usize = 0;
    while i < n
        invariant
            0 <= i <= n,
            n == s@.len(),
            split_classes_spec(s@) == toks.deep_view() + split_classes_spec(
                s@.subrange(i as int, n as int),
            ),
        decreases n - i,
    {
        if s.get_char(i) == ' ' {
            proof {
                let rest = s@.subrange(i as int, n as int);
                assert(rest[0] == ' ');
                assert(rest.drop_first() =~= s@.subrange(i + 1, n as int));
            }
            i = i + 1;
        } else {
            let mut j: usize = i + 1;
            while j < n
                invariant
                    i < j <= n,
                    n == s@.len(),
                    forall|m: int| i <= m < j ==> s@[m] != ' ',
                ensures
                    i < j <= n,
                    forall|m: int| i <= m < j ==> s@[m] != ' ',
                    j == n || s@[j as int] == ' ',
                decreases n - j,
            {
                if s.get_char(j) == ' ' {
                    break ;
                }
                j = j + 1;
            }
            let tok: String = s.substring_char(i, j).to_owned();
            proof {
                let rest = s@.subrange(i as int, n as int);
                lemma_token_len_is(rest, j - i);
                lemma_split_step(rest);
                assert(rest.subrange(0, (j - i) as int) =~= s@.subrange(i as int, j as int));
                assert(rest.subrange((j - i) as int, rest.len() as int) =~= s@.subrange(
                    j as int,
                    n as int,
                ));
                assert(toks.deep_view().push(tok@) =~= toks.deep_view() + seq![tok@]);
            }
            let ghost old_toks = toks.deep_view();
            toks.push(tok);
            proof {
                assert(toks.deep_view() =~= old_toks.push(tok@));
                assert(old_toks + seq![tok@] + split_classes_spec(
                    s@.subrange(j as int, n as int),
                ) =~~= old_toks + (seq![tok@] + split_classes_spec(
                    s@.subrange(j as int, n as int),
                )));
            }
            i = j;
        }
    }
    proof {
        assert(s@.subrange(i as int, n as int) =~= Seq::<char>::empty());
        assert(toks.deep_view() + Seq::<Seq<char>>::empty() =~= toks.deep_view());
    }
    toks
}

/// Whether the list holds a class with exactly these characters.
pub fn contains_class(list: &Vec<String>, class: &String) -> (r: bool)
    ensures
        r == list.deep_view().contains(class@),
{
    let mut k: usize = 0;
    while k < list.len()
        invariant
            0 <= k <= list.len(),
            forall|m: int| 0 <= m < k ==> list.deep_view()[m] != class@,
        decreases list.len() - k,
    {
        let entry: &String = &list[k];
        if entry.eq(class) {
            assert(list.deep_view()[k as int] == class@);
            return true;
        }
        k = k + 1;
    }
    false
}

/// Adding tokens one at a time, skipping the ones already present: the
/// resulting list, and the added classes in order.
pub open spec fn add_unique_spec(cur: Seq<Seq<char>>, toks: Seq<Seq<char>>) -> (Seq<Seq<char>>,
    Seq<Seq<char>>)
    decreases toks.len(),
{
    if toks.len() == 0 {
        (cur, Seq::empty())
    } else if cur.contains(toks[0]) {
        add_unique_spec(cur, toks.drop_first())
    } else {
        let r = add_unique_spec(cur.push(toks[0]), toks.drop_first());
        (r.0, seq![toks[0]] + r.1)
    }
}

/// The list left when every class that occurs among `rem` is dropped,
/// keeping the remaining order.
pub open spec fn remove_classes_spec(cur: Seq<Seq<char>>, rem: Seq<Seq<char>>) -> Seq<Seq<char>>
    decreases cur.len(),
{
    if cur.len() == 0 {
        Seq::empty()
    } else if rem.contains(cur[0]) {
        remove_classes_spec(cur.drop_first(), rem)
    } else {
        seq![cur[0]] + remove_classes_spec(cur.drop_first(), rem)
    }
}

/// One element's class list, in order and without duplicates as long as
/// every addition goes through [`HtmlElementExt::add_unique_classes`].
#[derive(PartialEq, Eq, Debug)]
pub struct ClassList {
    pub classes: Vec<String>,
}

impl Clone for ClassList {
    fn clone(&self) -> (r: Self)
        ensures
            r.classes@ == self.classes@,
    {
        let copied: Vec<String> = self.classes.clone();
        proof {
            assert forall|i: int| 0 <= i < self.classes@.len() implies self.classes@[i]
                == copied@[i] by {
                assert(vstd::pervasive::cloned::<String>(self.classes[i], copied[i]));
            }
            assert(self.classes@ =~= copied@);
        }
        ClassList { classes: copied }
    }
}

/// The class-membership operations of an element handle.
pub trait HtmlElementExt {
    /// Adds the classes named by a space-separated string, skipping the
    /// ones already present, and returns exactly the classes that were
    /// added, in order.
    fn add_unique_classes(&mut self, classes: &str) -> Vec<String>;

    /// Removes every occurrence of each of the given classes.
    fn remove_classes(&mut self, classes: &Vec<String>);
}

impl HtmlElementExt for ClassList {
    fn add_unique_classes(&mut self, classes: &str) -> (added: Vec<String>)
        ensures
            (final(self).classes.deep_view(), added.deep_view()) == add_unique_spec(
                old(self).classes.deep_view(),
                split_classes_spec(classes@),
            ),
    {
        let toks: Vec<String> = split_classes(classes);
        let ghost toks_view = toks.deep_view();
        let ghost orig = self.classes.deep_view();
        let mut added: Vec<String> = Vec::new();
        proof {
            assert(toks_view.subrange(0, toks_view.len() as int) =~= toks_view);
            let r = add_unique_spec(orig, toks_view);
            assert(Seq::<Seq<char>>::empty() + r.1 =~= r.1);
        }
        let mut k: usize = 0;
        while k < toks.len()
            invariant
                0 <= k <= toks.len(),
                toks.deep_view() == toks_view,
                add_unique_spec(orig, toks_view) == {
                    let r = add_unique_spec(
                        self.classes.deep_view(),
                        toks_view.subrange(k as int, toks_view.len() as int),
                    );
                    (r.0, added.deep_view() + r.1)
                },
            decreases toks.len() - k,
        {
            let ghost pre_classes = self.classes.deep_view();
            let ghost pre_added = added.deep_view();
            let ghost rest = toks_view.subrange(k as int, toks_view.len() as int);
            proof {
                assert(rest[0] == toks_view[k as int]);
                assert(rest.drop_first() =~= toks_view.subrange(
                    k + 1,
                    toks_view.len() as int,
                ));
            }
            if contains_class(&self.classes, &toks[k]) {
                proof {
                    assert(pre_classes.contains(rest[0]));
                }
            } else {
                let class: String = toks[k].clone();
                let ghost class_view = class@;
                self.classes.push(class);
                let class2: String = toks[k].clone();
                added.push(class2);
                proof {
                    assert(self.classes.deep_view() =~= pre_classes.push(class_view));
                    assert(added.deep_view() =~= pre_added.push(class_view));
                    let r = add_unique_spec(
                        pre_classes.push(rest[0]),
                        rest.drop_first(),
                    );
                    assert(pre_added + (seq![rest[0]] + r.1) =~~= pre_added.push(rest[0]) + r.1);
                }
            }
            k = k + 1;
        }
        proof {
            assert(toks_view.subrange(k as int, toks_view.len() as int)
                =~= Seq::<Seq<char>>::empty());
            assert(added.deep_view() + Seq::<Seq<char>>::empty() =~= added.deep_view());
        }
        proof {
            assert(toks_view == split_classes_spec(classes@));
        }
        added
    }

    fn remove_classes(&mut self, classes: &Vec<String>)
        ensures
            final(self).classes.deep_view() == remove_classes_spec(
                old(self).classes.deep_view(),
                classes.deep_view(),
            ),
    {
        let ghost removed = classes.deep_view();
        let ghost orig = self.classes.deep_view();
        let mut kept: Vec<String> = Vec::new();
        proof {
            assert(orig.subrange(0, orig.len() as int) =~= orig);
            assert(Seq::<Seq<char>>::empty() + remove_classes_spec(orig, removed)
                =~= remove_classes_spec(orig, removed));
        }
        let mut k: usize = 0;
        while k < self.classes.len()
            invariant
                0 <= k <= self.classes.len(),
                removed == classes.deep_view(),
                orig == self.classes.deep_view(),
                remove_classes_spec(orig, removed) == kept.deep_view() + remove_classes_spec(
                    orig.subrange(k as int, orig.len() as int),
                    removed,
                ),
            decreases self.classes.len() - k,
        {
            let ghost pre = kept.deep_view();
            let ghost rest = orig.subrange(k as int, orig.len() as int);
            proof {
                assert(rest[0] == orig[k as int]);
                assert(rest.drop_first() =~= orig.subrange(k + 1, orig.len() as int));
            }
            if !contains_class(classes, &self.classes[k]) {
                let c: String = self.classes[k].clone();
                kept.push(c);
                proof {
                    assert(kept.deep_view() =~= pre.push(orig[k as int]));
                    assert(pre + (seq![rest[0]] + remove_classes_spec(rest.drop_first(), removed))
                        =~~= pre.push(rest[0]) + remove_classes_spec(rest.drop_first(), removed));
                }
            }
            k = k + 1;
        }
        proof {
            assert(orig.subrange(k as int, orig.len() as int) =~= Seq::<Seq<char>>::empty());
            assert(kept.deep_view() + Seq::<Seq<char>>::empty() =~= kept.deep_view());
        }
        self.classes = kept;
    }
}

impl ClassList {
    /// An empty class list.
    pub fn new() -> (r: ClassList)
        ensures
            r.classes.deep_view() == Seq::<Seq<char>>::empty(),
    {
        let r = ClassList { classes: Vec::new() };
        proof {
            assert(r.classes.deep_view() =~= Seq::<Seq<char>>::empty());
        }
        r
    }
}


/// Clones a list of class names.
pub fn clone_classes(v: &Vec<String>) -> (r: Vec<String>)
    ensures
        r.deep_view() == v.deep_view(),
        r@ == v@,
{
    let copied: Vec<String> = v.clone();
    proof {
        assert forall|i: int| 0 <= i < v@.len() implies v@[i] == copied@[i] by {
            assert(vstd::pervasive::cloned::<String>(v[i], copied[i]));
        }
        assert(v@ =~= copied@);
        assert(v.deep_view() =~= copied.deep_view());
    }
    copied
}

} // verus!
