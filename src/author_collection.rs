use vstd::prelude::*;

use crate::author::{coauthor_text, Author, AuthorView};
use crate::text::{bool_string, bool_text, decimal_string, decimal_text, joined};

verus! {

/// The records of `s` that are active, in their order in `s`.
pub open spec fn active_only(s: Seq<AuthorView>) -> Seq<AuthorView> {
    s.filter(|a: AuthorView| a.active)
}

/// The trailer line of each record, in order.
pub open spec fn coauthor_lines(s: Seq<AuthorView>) -> Seq<Seq<char>> {
    s.map_values(|a: AuthorView| coauthor_text(a))
}

/// Whether position `i` is one of `indexes`.
pub open spec fn selected(indexes: Seq<i32>, i: int) -> bool {
    exists|j: int| 0 <= j < indexes.len() && indexes[j] as int == i
}

/// `s` with exactly the positions among `indexes` active and every other inactive.
pub open spec fn with_active_indexes(s: Seq<AuthorView>, indexes: Seq<i32>) -> Seq<AuthorView> {
    Seq::new(s.len(), |i: int| AuthorView { active: selected(indexes, i), ..s[i] })
}

/// The block that lists record `a` at position `i`.
pub open spec fn listing_block(i: nat, a: AuthorView) -> Seq<char> {
    "- index: "@ + decimal_text(i) + "\n  name: "@ + a.name + "\n  email: "@ + a.email
        + "\n  active: "@ + bool_text(a.active)
}

/// The block of each record of `s`, in order.
pub open spec fn listing_blocks(s: Seq<AuthorView>) -> Seq<Seq<char>> {
    Seq::new(s.len(), |i: int| listing_block(i as nat, s[i]))
}

/// The listing of every record of `s`, in order, each tagged with its position.
pub open spec fn listing_text(s: Seq<AuthorView>) -> Seq<char> {
    joined(listing_blocks(s), "\n---\n"@)
}

/// An ordered list of authors; a record is addressed by its position.
#[derive(Debug)]
pub struct AuthorCollection {
    authors: Vec<Author>,
}

impl View for AuthorCollection {
    type V = Seq<AuthorView>;

    closed spec fn view(&self) -> Seq<AuthorView> {
        self.authors@.map_values(|a: Author| a@)
    }
}

/// The trailer lines of `authors`, one per line, in order.
pub fn join_all_coauthor_strings(authors: &[Author]) -> (r: String)
    ensures
        r@ == joined(coauthor_lines(authors@.map_values(|a: Author| a@)), "\n"@),
{
    let ghost views = authors@.map_values(|a: Author| a@);
    let mut r = String::new();
    let mut i: usize = 0;
    while i < authors.len()
        invariant
            0 <= i <= authors@.len(),
            views == authors@.map_values(|a: Author| a@),
            r@ == joined(coauthor_lines(views.take(i as int)), "\n"@),
        decreases authors@.len() - i,
    {
        let line = authors[i].coauthor_string();
        if i > 0 {
            r.append("\n");
        }
        r.append(line.as_str());
        proof {
            let lines = coauthor_lines(views.take(i + 1));
            assert(lines.drop_last() =~= coauthor_lines(views.take(i as int)));
            assert(lines.last() == line@);
        }
        i = i + 1;
    }
    assert(views.take(i as int) =~= views);
    r
}

impl AuthorCollection {
    /// An empty collection.
    pub fn new() -> (r: AuthorCollection)
        ensures
            r@ == Seq::<AuthorView>::empty(),
    {
        AuthorCollection { authors: Vec::new() }
    }

    /// The collection that holds `vec`, in its order.
    pub fn from_vec(vec: Vec<Author>) -> (r: AuthorCollection)
        ensures
            r@ == vec@.map_values(|a: Author| a@),
    {
        AuthorCollection { authors: vec }
    }

    /// Appends `author` at the end; the records before it keep their positions.
    pub fn add_author(&mut self, author: Author)
        ensures
            final(self)@ == old(self)@.push(author@),
            final(self)@.len() == old(self)@.len() + 1,
            final(self)@.subrange(0, old(self)@.len() as int) == old(self)@,
            final(self)@[old(self)@.len() as int] == author@,
    {
        self.authors_mut().push(author);
        assert(self@.subrange(0, old(self)@.len() as int) =~= old(self)@);
    }

    /// The records, in order.
    pub fn authors(&self) -> (r: &Vec<Author>)
        ensures
            r@.map_values(|a: Author| a@) == self@,
    {
        &self.authors
    }

    /// The records, open to change in place.
    pub fn authors_mut(&mut self) -> (r: &mut Vec<Author>)
        ensures
            r@.map_values(|a: Author| a@) == old(self)@,
            final(self)@ == final(r)@.map_values(|a: Author| a@),
    {
        &mut self.authors
    }

    /// The active records, in their order in the collection.
    pub fn active_authors(&self) -> (r: Vec<&Author>)
        ensures
            r@.map_values(|a: &Author| a@) == active_only(self@),
    {
        let mut r: Vec<&Author> = Vec::new();
        let mut i: usize = 0;
        while i < self.authors.len()
            invariant
                0 <= i <= self@.len(),
                self@.len() == self.authors@.len(),
                r@.map_values(|a: &Author| a@) == active_only(self@.take(i as int)),
            decreases self@.len() - i,
        {
            let a = &self.authors[i];
            proof {
                reveal(Seq::filter);
                assert(self@.take(i + 1).drop_last() =~= self@.take(i as int));
            }
            if a.active() {
                r.push(a);
            }
            proof {
                assert(r@.map_values(|a: &Author| a@) =~= active_only(self@.take(i + 1)));
            }
            i = i + 1;
        }
        assert(self@.take(i as int) =~= self@);
        r
    }

    /// Makes the records at the positions in `indexes` active and every other record
    /// inactive. Values that are no position of the collection are ignored.
    pub fn set_active_authors_by_indexes(&mut self, indexes: &[i32])
        ensures
            final(self)@ == with_active_indexes(old(self)@, indexes@),
    {
        let mut i: usize = 0;
        while i < self.authors.len()
            invariant
                0 <= i <= self@.len(),
                self@.len() == old(self)@.len(),
                self@.len() == self.authors@.len(),
                forall|k: int|
                    0 <= k < i ==> #[trigger] self@[k] == with_active_indexes(old(self)@, indexes@)[k],
                forall|k: int| i <= k < self@.len() ==> #[trigger] self@[k] == old(self)@[k],
            decreases self@.len() - i,
        {
            let ghost prev = self@;
            let on = is_selected(indexes, i);
            if on {
                self.authors[i].activate();
            } else {
                self.authors[i].deactivate();
            }
            assert(self@ =~= prev.update(i as int, AuthorView { active: on, ..prev[i as int] }));
            i = i + 1;
        }
        assert(self@ =~= with_active_indexes(old(self)@, indexes@));
    }

    /// The trailer lines of the active records, one per line, in order; empty when
    /// no record is active.
    pub fn join_all_active_coauthor_strings(&self) -> (r: String)
        ensures
            r@ == joined(coauthor_lines(active_only(self@)), "\n"@),
    {
        let mut r = String::new();
        let mut any_line = false;
        let mut i: usize = 0;
        while i < self.authors.len()
            invariant
                0 <= i <= self@.len(),
                self@.len() == self.authors@.len(),
                any_line == (active_only(self@.take(i as int)).len() > 0),
                r@ == joined(coauthor_lines(active_only(self@.take(i as int))), "\n"@),
            decreases self@.len() - i,
        {
            let a = &self.authors[i];
            proof {
                reveal(Seq::filter);
                assert(self@.take(i + 1).drop_last() =~= self@.take(i as int));
            }
            if a.active() {
                let line = a.coauthor_string();
                if any_line {
                    r.append("\n");
                }
                r.append(line.as_str());
                any_line = true;
                proof {
                    let lines = coauthor_lines(active_only(self@.take(i + 1)));
                    assert(lines.drop_last() =~= coauthor_lines(active_only(self@.take(i as int))));
                }
            } else {
                assert(coauthor_lines(active_only(self@.take(i + 1))) =~= coauthor_lines(
                    active_only(self@.take(i as int)),
                ));
            }
            i = i + 1;
        }
        assert(self@.take(i as int) =~= self@);
        r
    }

    /// Every record in order, each in a block that gives its position, name, email
    /// and active state; blocks are separated by a `---` line.
    pub fn authors_with_indexes(&self) -> (r: String)
        ensures
            r@ == listing_text(self@),
    {
        let mut r = String::new();
        let mut i: usize = 0;
        while i < self.authors.len()
            invariant
                0 <= i <= self@.len(),
                self@.len() == self.authors@.len(),
                r@ == listing_text(self@.take(i as int)),
            decreases self@.len() - i,
        {
            let a = &self.authors[i];
            let mut block = String::from_str("- index: ");
            block.append(decimal_string(i).as_str());
            block.append("\n  name: ");
            block.append(a.name().as_str());
            block.append("\n  email: ");
            block.append(a.email().as_str());
            block.append("\n  active: ");
            block.append(bool_string(a.active()).as_str());
            if i > 0 {
                r.append("\n---\n");
            }
            r.append(block.as_str());
            proof {
                let blocks = listing_blocks(self@.take(i + 1));
                assert(blocks.drop_last() =~= listing_blocks(self@.take(i as int)));
                assert(blocks.last() == block@);
            }
            i = i + 1;
        }
        assert(self@.take(i as int) =~= self@);
        r
    }

    /// The collection read back from storage: the saved records in their order, or
    /// no record at all where nothing was saved.
    pub fn from_saved(saved: Option<Vec<Author>>) -> (r: AuthorCollection)
        ensures
            saved is None ==> r@ == Seq::<AuthorView>::empty(),
            saved matches Some(v) ==> r@ == v@.map_values(|a: Author| a@),
    {
        match saved {
            Some(v) => AuthorCollection::from_vec(v),
            None => AuthorCollection::new(),
        }
    }
}

impl Default for AuthorCollection {
    fn default() -> (r: AuthorCollection)
        ensures
            r@ == Seq::<AuthorView>::empty(),
    {
        AuthorCollection::new()
    }
}

impl From<Vec<Author>> for AuthorCollection {
    fn from(vec: Vec<Author>) -> (r: AuthorCollection)
        ensures
            r@ == vec@.map_values(|a: Author| a@),
    {
        AuthorCollection { authors: vec }
    }
}

impl vstd::std_specs::convert::FromSpecImpl<Vec<Author>> for AuthorCollection {
    open spec fn obeys_from_spec() -> bool {
        true
    }

    closed spec fn from_spec(vec: Vec<Author>) -> AuthorCollection {
        AuthorCollection { authors: vec }
    }
}

/// Setting the active records by a list of positions is a total reset: doing it a
/// second time with the same positions changes nothing.
pub proof fn lemma_set_active_idempotent(s: Seq<AuthorView>, indexes: Seq<i32>)
    ensures
        with_active_indexes(with_active_indexes(s, indexes), indexes) == with_active_indexes(
            s,
            indexes,
        ),
{
    assert(with_active_indexes(with_active_indexes(s, indexes), indexes) =~= with_active_indexes(
        s,
        indexes,
    ));
}

/// Values among the positions that are no position of the collection change nothing:
/// adding them gives the same records as leaving them out.
pub proof fn lemma_out_of_range_ignored(s: Seq<AuthorView>, indexes: Seq<i32>, extra: Seq<i32>)
    requires
        forall|j: int| 0 <= j < extra.len() ==> extra[j] < 0 || extra[j] >= s.len(),
    ensures
        with_active_indexes(s, indexes + extra) == with_active_indexes(s, indexes),
{
    let all = indexes + extra;
    assert forall|i: int| 0 <= i < s.len() implies selected(all, i) == selected(indexes, i) by {
        if selected(all, i) {
            let j = choose|j: int| 0 <= j < all.len() && all[j] as int == i;
            if j < indexes.len() {
                assert(indexes[j] == all[j]);
            } else {
                assert(extra[j - indexes.len()] == all[j]);
            }
        }
        if selected(indexes, i) {
            let j = choose|j: int| 0 <= j < indexes.len() && indexes[j] as int == i;
            assert(all[j] == indexes[j]);
        }
    }
    assert(with_active_indexes(s, all) =~= with_active_indexes(s, indexes));
}

/// Whether `i` is one of `indexes`.
fn is_selected(indexes: &[i32], i: usize) -> (r: bool)
    ensures
        r == selected(indexes@, i as int),
{
    let mut j: usize = 0;
    while j < indexes.len()
        invariant
            0 <= j <= indexes@.len(),
            forall|k: int| 0 <= k < j ==> indexes@[k] as int != i as int,
        decreases indexes@.len() - j,
    {
        if indexes[j] >= 0 && indexes[j] as usize == i {
            return true;
        }
        j = j + 1;
    }
    false
}

} // verus!
