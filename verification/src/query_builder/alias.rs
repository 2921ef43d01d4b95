//! Names of sources: a prefix shared by a builder and everything attached
//! through it, and a number for each source.
//!
//! The prefix stands in a cell that the builder and the aliases of its sources
//! share. Whoever holds the name can replace the prefix, and every alias of the
//! name shows the prefix that the cell holds when the alias is rendered. What a
//! cell holds is read once for a rendering, into a list of prefixes; the text of
//! every part is then a function of the part and of that list.
//!
//! The cell is not made for use by several threads at once.

use std::cell::RefCell;
use std::rc::Rc;
use vstd::prelude::*;
use vstd::string::*;
use super::text::{decimal, decimal_string, lemma_decimal_plain, plain};

verus! {

/// `std::cell::RefCell`: a place whose content can be replaced through a
/// shared reference. Nothing is known of what it holds.
#[verifier::external_type_specification]
#[verifier::external_body]
#[verifier::reject_recursive_types(T)]
pub struct ExRefCell<T: ?Sized>(RefCell<T>);

/// `RefCell::new` of std: a new cell that holds `prefix`. Nothing is claimed
/// of the cell.
#[verifier::external_body]
fn new_cell(prefix: &'static str) -> (cell: RefCell<&'static str>) {
    RefCell::new(prefix)
}

/// `RefCell::borrow` of std: what the cell holds now. Nothing is claimed of
/// it, since any holder of the cell may have replaced it. The borrow ends
/// before the function returns, and no other function of this library keeps
/// one, so the call does not panic.
#[verifier::external_body]
fn read_cell(cell: &Rc<RefCell<&'static str>>) -> (prefix: &'static str) {
    *cell.borrow()
}

/// `RefCell::replace` of std: puts `prefix` into the cell. The cell itself
/// stays the same cell. No function of this library keeps a borrow of the
/// cell, so the call does not panic.
#[verifier::external_body]
fn write_cell(cell: &Rc<RefCell<&'static str>>, prefix: &'static str) {
    cell.replace(prefix);
}

/// `Rc::ptr_eq` of std: whether the two point to one cell. Two cells are
/// equal exactly when they are one cell, whatever they hold.
#[verifier::external_body]
fn same_cell(a: &Rc<RefCell<&'static str>>, b: &Rc<RefCell<&'static str>>) -> (same: bool)
    ensures
        same == (a == b),
{
    Rc::ptr_eq(a, b)
}

/// The name that the aliases of one builder are made from: a cell with the
/// prefix. Clones of a name share the cell; two names are equal when they
/// share it.
#[derive(Debug)]
pub struct SourceAliasName {
    name: Rc<RefCell<&'static str>>,
}

impl SourceAliasName {
    /// A name with a cell of its own that holds `name`.
    pub fn new(name: &'static str) -> (r: Self) {
        SourceAliasName { name: Rc::new(new_cell(name)) }
    }

    /// Replaces the prefix. Every holder of the name reads the new prefix from
    /// now on. The name stays the same name.
    pub fn set(&mut self, new_name: &'static str)
        ensures
            *final(self) == *old(self),
    {
        write_cell(&self.name, new_name);
    }

    /// The prefix that the cell holds now.
    pub fn as_str(&self) -> (s: &'static str) {
        read_cell(&self.name)
    }

    /// Whether the two names share one cell.
    pub fn same(&self, other: &SourceAliasName) -> (b: bool)
        ensures
            b == (*self == *other),
    {
        same_cell(&self.name, &other.name)
    }
}

impl Clone for SourceAliasName {
    /// Another holder of the same cell.
    fn clone(&self) -> (r: Self)
        ensures
            r == *self,
    {
        SourceAliasName { name: self.name.clone() }
    }
}

impl Default for SourceAliasName {
    /// A name with a cell of its own that holds `t`.
    fn default() -> (r: Self) {
        SourceAliasName::new("t")
    }
}

/// The prefixes read for a rendering: names, each with the prefix that was
/// read from its cell.
pub type Prefixes = Seq<(SourceAliasName, Seq<char>)>;

/// The prefix read for a name: that of the first entry of the name, and
/// nothing where the name was not read.
pub open spec fn prefix_in(prefixes: Prefixes, name: SourceAliasName) -> Seq<char>
    decreases prefixes.len(),
{
    if prefixes.len() == 0 {
        Seq::empty()
    } else if prefixes[0].0 == name {
        prefixes[0].1
    } else {
        prefix_in(prefixes.drop_first(), name)
    }
}

/// Whether the name was read.
pub open spec fn covered(prefixes: Prefixes, name: SourceAliasName) -> bool {
    exists|j: int| 0 <= j < prefixes.len() && (#[trigger] prefixes[j]).0 == name
}

/// Whether each of the names was read.
pub open spec fn covers(prefixes: Prefixes, names: Seq<SourceAliasName>) -> bool {
    forall|i: int| 0 <= i < names.len() ==> covered(prefixes, #[trigger] names[i])
}

/// Whether `later` is `earlier` with more entries after it.
pub open spec fn extends(earlier: Prefixes, later: Prefixes) -> bool {
    &&& earlier.len() <= later.len()
    &&& forall|j: int| 0 <= j < earlier.len() ==> #[trigger] later[j] == earlier[j]
}

/// More entries after those that are there leave every name read that was
/// read, with the prefix that was read for it.
pub proof fn lemma_extends_keeps(earlier: Prefixes, later: Prefixes, name: SourceAliasName)
    requires
        extends(earlier, later),
        covered(earlier, name),
    ensures
        covered(later, name),
        prefix_in(later, name) == prefix_in(earlier, name),
    decreases earlier.len(),
{
    let j = choose|j: int| 0 <= j < earlier.len() && (#[trigger] earlier[j]).0 == name;
    assert(later[j] == earlier[j]);
    if earlier[0].0 != name {
        assert(later[0] == earlier[0]);
        let e = earlier.drop_first();
        let l = later.drop_first();
        assert(e[j - 1] == earlier[j]);
        assert forall|k: int| 0 <= k < e.len() implies #[trigger] l[k] == e[k] by {
            assert(later[k + 1] == earlier[k + 1]);
        }
        lemma_extends_keeps(e, l, name);
    } else {
        assert(later[0] == earlier[0]);
    }
}

/// More entries after those that are there leave all names read that were
/// read.
pub proof fn lemma_extends_covers(
    earlier: Prefixes,
    later: Prefixes,
    names: Seq<SourceAliasName>,
)
    requires
        extends(earlier, later),
        covers(earlier, names),
    ensures
        covers(later, names),
{
    assert forall|i: int| 0 <= i < names.len() implies covered(later, #[trigger] names[i]) by {
        lemma_extends_keeps(earlier, later, names[i]);
    }
}

/// Names read, then more names read, are all read.
pub proof fn lemma_covers_both(
    prefixes: Prefixes,
    first: Seq<SourceAliasName>,
    second: Seq<SourceAliasName>,
)
    requires
        covers(prefixes, first),
        covers(prefixes, second),
    ensures
        covers(prefixes, first + second),
{
    let both = first + second;
    assert forall|i: int| 0 <= i < both.len() implies covered(prefixes, #[trigger] both[i]) by {
        if i < first.len() {
            assert(both[i] == first[i]);
        } else {
            assert(both[i] == second[i - first.len()]);
        }
    }
}

/// Whether no prefix that was read holds a `?` or a `;`.
pub open spec fn plain_prefixes(prefixes: Prefixes) -> bool {
    forall|j: int| 0 <= j < prefixes.len() ==> plain((#[trigger] prefixes[j]).1)
}

/// Where no prefix that was read holds a `?` or a `;`, no alias rendered
/// with them does.
pub proof fn lemma_rendered_plain(prefixes: Prefixes, alias: SourceAlias)
    requires
        plain_prefixes(prefixes),
    ensures
        plain(alias.rendered(prefixes)),
{
    lemma_prefix_plain(prefixes, alias.alias_name());
    lemma_decimal_plain(alias.suffix() as nat);
}

/// Where no prefix that was read holds a `?` or a `;`, the prefix read for
/// a name holds none.
pub proof fn lemma_prefix_plain(prefixes: Prefixes, name: SourceAliasName)
    requires
        plain_prefixes(prefixes),
    ensures
        plain(prefix_in(prefixes, name)),
    decreases prefixes.len(),
{
    if prefixes.len() > 0 {
        assert(plain(prefixes[0].1));
        if prefixes[0].0 != name {
            let rest = prefixes.drop_first();
            assert forall|j: int| 0 <= j < rest.len() implies plain((#[trigger] rest[j]).1) by {
                assert(rest[j] == prefixes[j + 1]);
            }
            lemma_prefix_plain(rest, name);
        }
    }
}

/// The prefixes read for a rendering.
#[derive(Debug)]
pub struct AliasPrefixes {
    names: Vec<SourceAliasName>,
    prefixes: Vec<&'static str>,
}

impl View for AliasPrefixes {
    type V = Prefixes;

    closed spec fn view(&self) -> Prefixes {
        Seq::new(
            if self.names@.len() <= self.prefixes@.len() {
                self.names@.len()
            } else {
                self.prefixes@.len()
            },
            |i: int| (self.names@[i], self.prefixes@[i]@),
        )
    }
}

impl AliasPrefixes {
    /// Nothing read yet.
    pub fn new() -> (r: Self)
        ensures
            r@ == Seq::<(SourceAliasName, Seq<char>)>::empty(),
    {
        let r = AliasPrefixes { names: Vec::new(), prefixes: Vec::new() };
        assert(r@ =~= Seq::<(SourceAliasName, Seq<char>)>::empty());
        r
    }

    /// Whether the name was read.
    pub fn has(&self, name: &SourceAliasName) -> (b: bool)
        ensures
            b == covered(self@, *name),
    {
        let mut i: usize = 0;
        while i < self.names.len() && i < self.prefixes.len()
            invariant
                forall|j: int| 0 <= j < i && j < self@.len() ==> (#[trigger] self@[j]).0 != *name,
            decreases self.names.len() - i,
        {
            assert(self@[i as int].0 == self.names@[i as int]);
            if self.names[i].same(name) {
                return true;
            }
            i += 1;
        }
        false
    }

    /// Reads the prefix of the name from its cell, unless the name was read
    /// before: a name has one prefix throughout a rendering.
    pub fn note(&mut self, name: &SourceAliasName)
        ensures
            extends(old(self)@, final(self)@),
            covered(final(self)@, *name),
            covered(old(self)@, *name) ==> final(self)@ == old(self)@,
            !covered(old(self)@, *name) ==> final(self)@.len() == old(self)@.len() + 1
                && final(self)@.last().0 == *name,
    {
        if self.has(name) {
            return ;
        }
        let shorter: usize = if self.names.len() <= self.prefixes.len() {
            self.names.len()
        } else {
            self.prefixes.len()
        };
        self.names.truncate(shorter);
        self.prefixes.truncate(shorter);
        assert(self@ =~= old(self)@);
        let prefix = name.as_str();
        self.names.push(name.clone());
        self.prefixes.push(prefix);
        assert(self@[shorter as int].0 == *name);
    }

    /// The prefix read for the name, and nothing where the name was not read.
    pub fn prefix(&self, name: &SourceAliasName) -> (s: &'static str)
        ensures
            s@ == prefix_in(self@, *name),
    {
        let mut i: usize = 0;
        assert(self@.subrange(0, self@.len() as int) =~= self@);
        while i < self.names.len() && i < self.prefixes.len()
            invariant
                i <= self@.len(),
                prefix_in(self@, *name) == prefix_in(
                    self@.subrange(i as int, self@.len() as int),
                    *name,
                ),
            decreases self.names.len() - i,
        {
            let ghost rest = self@.subrange(i as int, self@.len() as int);
            assert(rest[0] == self@[i as int]);
            assert(self@[i as int].0 == self.names@[i as int]);
            if self.names[i].same(name) {
                return self.prefixes[i];
            }
            assert(rest.drop_first() =~= self@.subrange(i + 1, self@.len() as int));
            i += 1;
        }
        proof {
            reveal_strlit("");
            assert(self@.subrange(i as int, self@.len() as int).len() == 0);
        }
        ""
    }
}

/// The alias of one source: the name of its builder and its number.
#[derive(Debug)]
pub struct SourceAlias {
    name: SourceAliasName,
    suffix_number: u8,
}

impl SourceAlias {
    /// The name, shared with the builder that the source is attached to.
    pub closed spec fn alias_name(&self) -> SourceAliasName {
        self.name
    }

    /// The number of the source among those of its builder.
    pub closed spec fn suffix(&self) -> u8 {
        self.suffix_number
    }

    /// The alias as rendered with the given prefixes: the prefix read for its
    /// name, and its number.
    pub open spec fn rendered(&self, prefixes: Prefixes) -> Seq<char> {
        prefix_in(prefixes, self.alias_name()) + decimal(self.suffix() as nat)
    }

    pub fn new(name: SourceAliasName, suffix_number: u8) -> (r: Self)
        ensures
            r.alias_name() == name,
            r.suffix() == suffix_number,
    {
        SourceAlias { name, suffix_number }
    }

    /// The name of the alias.
    pub fn name_ref(&self) -> (r: &SourceAliasName)
        ensures
            *r == self.alias_name(),
    {
        &self.name
    }

    /// Reads the prefix of the alias's name, unless it was read before.
    pub fn note_name(&self, prefixes: &mut AliasPrefixes)
        ensures
            extends(old(prefixes)@, final(prefixes)@),
            covers(final(prefixes)@, seq![self.alias_name()]),
    {
        prefixes.note(&self.name);
    }

    /// Replaces the prefix of the name. Every alias of the name shows the new
    /// prefix from now on. The alias stays the same alias.
    pub fn change_name(&mut self, new_name: &'static str)
        ensures
            *final(self) == *old(self),
    {
        self.name.set(new_name);
    }

    /// The alias with the prefix that its name has now.
    pub fn to_string(&self) -> (s: String)
        ensures
            exists|prefixes: Prefixes|
                covered(prefixes, self.alias_name()) && s@ == #[trigger] self.rendered(prefixes),
    {
        let mut prefixes = AliasPrefixes::new();
        prefixes.note(&self.name);
        self.to_string_in(&prefixes)
    }

    /// The alias with the prefix read for its name.
    pub fn to_string_in(&self, prefixes: &AliasPrefixes) -> (s: String)
        ensures
            s@ == self.rendered(prefixes@),
    {
        let mut s = String::from_str(prefixes.prefix(&self.name));
        let digits = decimal_string(self.suffix_number);
        s.append(digits.as_str());
        s
    }
}

impl Clone for SourceAlias {
    fn clone(&self) -> (r: Self)
        ensures
            r == *self,
    {
        SourceAlias { name: self.name.clone(), suffix_number: self.suffix_number }
    }
}

} // verus!
