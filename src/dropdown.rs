//! The options of a drop-down list and the one that is selected.
use vstd::prelude::*;

verus! {

/// A drop-down's options; `selected_option` is shown in its header and
/// `selected_index` is the position of the last option that matched it.
pub struct DropDownOptions {
    pub options: Vec<String>,
    pub selected_index: usize,
    pub selected_option: String,
}

/// The texts of a list of strings.
pub open spec fn texts(v: Seq<String>) -> Seq<Seq<char>> {
    v.map_values(|s: String| s@)
}

/// The position of the last entry of `items` equal to `o`, if any.
pub open spec fn last_index_of(items: Seq<Seq<char>>, o: Seq<char>) -> Option<nat>
    decreases items.len(),
{
    if items.len() == 0 {
        None
    } else if items.last() == o {
        Some((items.len() - 1) as nat)
    } else {
        last_index_of(items.drop_last(), o)
    }
}

proof fn lemma_last_index_bound(items: Seq<Seq<char>>, o: Seq<char>)
    ensures
        last_index_of(items, o) matches Some(i) ==> i < items.len() && items[i as int] == o,
    decreases items.len(),
{
    if items.len() > 0 && items.last() != o {
        lemma_last_index_bound(items.drop_last(), o);
    }
}

/// Finds the position of the last option whose text is `o`.
fn find_last(options: &Vec<String>, o: &String) -> (r: Option<usize>)
    ensures
        r matches Some(i) ==> last_index_of(texts(options@), o@) == Some(i as nat) && i
            < options@.len() && options@[i as int]@ == o@,
        r is None ==> last_index_of(texts(options@), o@) is None,
{
    let n: usize = options.len();
    let mut found: Option<usize> = None;
    let mut i: usize = 0;
    while i < n
        invariant
            n == options@.len(),
            i <= n,
            found matches Some(j) ==> last_index_of(texts(options@).take(i as int), o@) == Some(
                j as nat,
            ),
            found is None ==> last_index_of(texts(options@).take(i as int), o@) is None,
        decreases n - i,
    {
        let ghost t: Seq<Seq<char>> = texts(options@);
        assert(t.take(i + 1).drop_last() =~= t.take(i as int));
        assert(t.take(i + 1).last() == options@[i as int]@);
        if options[i] == *o {
            found = Some(i);
        }
        i = i + 1;
    }
    assert(texts(options@).take(n as int) =~= texts(options@));
    proof {
        lemma_last_index_bound(texts(options@), o@);
    }
    found
}

impl DropDownOptions {
    /// Options with `option` selected: the index is that of the last option
    /// equal to it, and the selection is left empty (at index 0) when no
    /// option equals it.
    pub fn from_option(options: Vec<String>, option: String) -> (r: DropDownOptions)
        ensures
            r.options@ == options@,
            last_index_of(texts(options@), option@) matches Some(i) ==> r.selected_index == i
                && r.selected_option@ == option@,
            last_index_of(texts(options@), option@) is None ==> r.selected_index == 0
                && r.selected_option@ == Seq::<char>::empty(),
    {
        let found: Option<usize> = find_last(&options, &option);
        match found {
            Some(i) => DropDownOptions { options, selected_index: i, selected_option: option },
            None => DropDownOptions { options, selected_index: 0, selected_option: String::new() },
        }
    }

    /// Handles a click on the list item whose label is `text`: the header
    /// shows that text, and the index moves to the last option equal to it
    /// (it stays where it was if none is).
    pub fn select(&mut self, text: String)
        ensures
            final(self).options@ == old(self).options@,
            final(self).selected_option@ == text@,
            last_index_of(texts(old(self).options@), text@) matches Some(i)
                ==> final(self).selected_index == i,
            last_index_of(texts(old(self).options@), text@) is None ==> final(self).selected_index
                == old(self).selected_index,
    {
        let found: Option<usize> = find_last(&self.options, &text);
        if let Some(i) = found {
            self.selected_index = i;
        }
        self.selected_option = text;
    }
}

} // verus!
