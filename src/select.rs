//! Which configured packages a run handles.
use vstd::prelude::*;
use vstd::string::*;
use crate::package::Package;

verus! {

/// The pieces of `s` between commas, in order; an empty text is one empty
/// piece.
pub open spec fn split_commas(s: Seq<char>) -> Seq<Seq<char>>
    decreases s.len(),
{
    if s.len() == 0 {
        seq![Seq::empty()]
    } else {
        let rest = split_commas(s.drop_last());
        if s.last() == ',' {
            rest.push(Seq::empty())
        } else {
            rest.update(rest.len() - 1, rest.last().push(s.last()))
        }
    }
}

/// Whether position `p` is among the selected positions.
pub open spec fn is_selected(sel: Seq<usize>, p: int) -> bool {
    exists|k: int| 0 <= k < sel.len() && sel[k] == p
}

/// Whether `name` is one of the listed names.
pub open spec fn is_listed(names: Seq<Seq<char>>, name: Seq<char>) -> bool {
    exists|j: int| 0 <= j < names.len() && names[j] == name
}

proof fn lemma_split_nonempty(s: Seq<char>)
    ensures
        split_commas(s).len() >= 1,
    decreases s.len(),
{
    if s.len() > 0 {
        lemma_split_nonempty(s.drop_last());
    }
}

/// The comma-separated names of a package list.
pub fn split_names(list: &str) -> (r: Vec<String>)
    ensures
        r@.map_values(|t: String| t@) == split_commas(list@),
{
    let n = list.unicode_len();
    let mut pieces: Vec<String> = Vec::new();
    let mut cur = String::new();
    let mut i: usize = 0;
    assert(list@.take(0) =~= Seq::<char>::empty());
    assert(pieces@.map_values(|t: String| t@).push(cur@) =~= split_commas(list@.take(0)));
    while i < n
        invariant
            n == list@.len(),
            i <= n,
            pieces@.map_values(|t: String| t@).push(cur@) == split_commas(list@.take(i as int)),
        decreases n - i,
    {
        let c = list.get_char(i);
        let ghost prefix = list@.take(i + 1);
        assert(prefix.drop_last() =~= list@.take(i as int));
        assert(prefix.last() == c);
        if c == ',' {
            pieces.push(cur);
            cur = String::new();
            assert(pieces@.map_values(|t: String| t@).push(cur@) =~= split_commas(prefix));
        } else {
            let ghost before = pieces@.map_values(|t: String| t@).push(cur@);
            let ghost old_cur = cur@;
            cur.append(list.substring_char(i, i + 1));
            assert(list@.subrange(i as int, i + 1) =~= seq![c]);
            assert(cur@ =~= old_cur.push(c));
            assert(before.last() == old_cur);
            assert(pieces@.map_values(|t: String| t@).push(cur@) =~= before.update(
                before.len() - 1,
                before.last().push(c),
            ));
        }
        i = i + 1;
    }
    assert(list@.take(n as int) =~= list@);
    pieces.push(cur);
    assert(pieces@.map_values(|t: String| t@) =~= split_commas(list@));
    pieces
}

fn listed(names: &Vec<String>, name: &String) -> (r: bool)
    ensures
        r == is_listed(names@.map_values(|t: String| t@), name@),
{
    let ghost views = names@.map_values(|t: String| t@);
    let mut j: usize = 0;
    while j < names.len()
        invariant
            j <= names.len(),
            views == names@.map_values(|t: String| t@),
            forall|k: int| 0 <= k < j ==> views[k] != name@,
        decreases names.len() - j,
    {
        if names[j] == *name {
            assert(views[j as int] == name@);
            return true;
        }
        j = j + 1;
    }
    false
}

/// The positions of the packages a run handles: every package when `all`,
/// else those named in the comma-separated `list`, in configuration order;
/// `None` when neither is given.
pub fn select_packages(packages: &Vec<Package>, all: bool, list: Option<&str>) -> (r: Option<Vec<usize>>)
    ensures
        r is None <==> (!all && list is None),
        r matches Some(sel) ==> {
            &&& forall|a: int, b: int| 0 <= a < b < sel@.len() ==> sel@[a] < sel@[b]
            &&& forall|k: int| 0 <= k < sel@.len() ==> sel@[k] < packages@.len()
            &&& forall|i: int|
                0 <= i < packages@.len() ==> (#[trigger] is_selected(sel@, i) <==> (all || is_listed(
                    split_commas(list->0@),
                    packages@[i].name@,
                )))
        },
{
    let names: Vec<String> = if all {
        Vec::new()
    } else {
        match list {
            Some(l) => split_names(l),
            None => return None,
        }
    };
    let mut sel: Vec<usize> = Vec::new();
    let mut i: usize = 0;
    while i < packages.len()
        invariant
            i <= packages.len(),
            !all ==> list is Some && names@.map_values(|t: String| t@) == split_commas(list->0@),
            forall|a: int, b: int| 0 <= a < b < sel@.len() ==> sel@[a] < sel@[b],
            forall|k: int| 0 <= k < sel@.len() ==> sel@[k] < i,
            forall|p: int|
                0 <= p < i ==> (#[trigger] is_selected(sel@, p) <==> (all || is_listed(
                    split_commas(list->0@),
                    packages@[p].name@,
                ))),
        decreases packages.len() - i,
    {
        if all || listed(&names, &packages[i].name) {
            let ghost old_sel = sel@;
            sel.push(i);
            assert forall|p: int| 0 <= p < i implies #[trigger] is_selected(sel@, p)
                == is_selected(old_sel, p) by {
                if is_selected(sel@, p) {
                    let k = choose|k: int| 0 <= k < sel@.len() && sel@[k] == p;
                    assert(k < old_sel.len());
                    assert(old_sel[k] == p);
                }
                if is_selected(old_sel, p) {
                    let k = choose|k: int| 0 <= k < old_sel.len() && old_sel[k] == p;
                    assert(sel@[k] == p);
                }
            }
            assert(sel@[sel@.len() - 1] == i);
            assert(is_selected(sel@, i as int));
        }
        i = i + 1;
    }
    Some(sel)
}

} // verus!
