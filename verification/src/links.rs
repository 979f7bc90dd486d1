//! Picking the symbolic links out of a walk of the install tree.

use vstd::prelude::*;

verus! {

/// One entry of a directory walk that did not follow links.
#[derive(Clone, Debug, PartialEq, Eq)]
pub struct WalkEntry {
    pub path: String,
    /// Whether the entry itself is a symbolic link.
    pub symlink: bool,
}

pub struct WalkEntryView {
    pub path: Seq<char>,
    pub symlink: bool,
}

impl View for WalkEntry {
    type V = WalkEntryView;

    open spec fn view(&self) -> WalkEntryView {
        WalkEntryView { path: self.path@, symlink: self.symlink }
    }
}

impl DeepView for WalkEntry {
    type V = WalkEntryView;

    open spec fn deep_view(&self) -> WalkEntryView {
        self@
    }
}

/// The paths of the entries that are symbolic links, in walk order.
pub open spec fn symlinks(entries: Seq<WalkEntryView>) -> Seq<Seq<char>>
    decreases entries.len(),
{
    if entries.len() == 0 {
        seq![]
    } else if entries.last().symlink {
        symlinks(entries.drop_last()).push(entries.last().path)
    } else {
        symlinks(entries.drop_last())
    }
}

/// Every path that `symlinks` keeps belongs to a link of the walk, so an
/// entry of any other kind is never handed on.
pub proof fn lemma_symlinks_are_links(entries: Seq<WalkEntryView>, i: int)
    requires
        0 <= i < symlinks(entries).len(),
    ensures
        exists|j: int|
            0 <= j < entries.len() && (#[trigger] entries[j]).symlink && entries[j].path
                == symlinks(entries)[i],
    decreases entries.len(),
{
    if entries.len() > 0 {
        let rest = symlinks(entries.drop_last());
        if entries.last().symlink && i == rest.len() {
            assert(entries[entries.len() - 1].symlink);
        } else {
            lemma_symlinks_are_links(entries.drop_last(), i);
            let j = choose|j: int|
                0 <= j < entries.drop_last().len() && (#[trigger] entries.drop_last()[j]).symlink
                    && entries.drop_last()[j].path == rest[i];
            assert(entries[j] == entries.drop_last()[j]);
        }
    }
}

/// No link of the walk is lost.
pub proof fn lemma_links_are_kept(entries: Seq<WalkEntryView>, j: int)
    requires
        0 <= j < entries.len(),
        entries[j].symlink,
    ensures
        symlinks(entries).contains(entries[j].path),
    decreases entries.len(),
{
    let rest = symlinks(entries.drop_last());
    if j == entries.len() - 1 {
        assert(symlinks(entries)[rest.len() as int] == entries[j].path);
    } else {
        lemma_links_are_kept(entries.drop_last(), j);
        let i = choose|i: int| 0 <= i < rest.len() && rest[i] == entries.drop_last()[j].path;
        assert(symlinks(entries)[i] == entries[j].path);
    }
}

pub fn collect_links(entries: &Vec<WalkEntry>) -> (links: Vec<String>)
    ensures
        links.deep_view() == symlinks(entries.deep_view()),
{
    let mut links: Vec<String> = Vec::new();
    let mut i: usize = 0;
    assert(entries.deep_view().take(0) =~= Seq::<WalkEntryView>::empty());
    assert(links.deep_view() =~= Seq::<Seq<char>>::empty());
    while i < entries.len()
        invariant
            i <= entries.len(),
            links.deep_view() == symlinks(entries.deep_view().take(i as int)),
        decreases entries.len() - i,
    {
        let ghost before = links.deep_view();
        let ghost seen = entries.deep_view().take(i as int + 1);
        assert(seen.drop_last() =~= entries.deep_view().take(i as int));
        assert(seen.last() == entries[i as int]@);
        if entries[i].symlink {
            links.push(entries[i].path.clone());
            assert(links.deep_view() =~= before.push(entries[i as int]@.path));
        }
        i = i + 1;
    }
    assert(entries.deep_view().take(i as int) =~= entries.deep_view());
    links
}

} // verus!
