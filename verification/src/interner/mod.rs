use vstd::prelude::*;

verus! {

/// A value that lives, unchanged, until the program ends.
pub type Interned<T> = &'static T;

/// Gives up ownership of a boxed value so that it lives until the program
/// ends.
#[verifier::external_body]
fn box_leak<T: 'static>(boxed: Box<T>) -> (r: &'static T)
    ensures
        *r == *boxed,
{
    Box::leak(boxed)
}

/// Moves `value` to the heap and keeps it there until the program ends.
pub fn leak<T: 'static>(value: T) -> (r: &'static T)
    ensures
        *r == value,
{
    let boxed = Box::new(value);
    box_leak(boxed)
}

/// A value kept until the program ends.
pub struct Leaked<T: 'static> {
    leaked: &'static T,
}

impl<T: 'static> View for Leaked<T> {
    type V = T;

    closed spec fn view(&self) -> T {
        *self.leaked
    }
}

impl<T: 'static> Leaked<T> {
    /// Keeps `value` until the program ends.
    pub fn new(value: T) -> (r: Self)
        ensures
            r@ == value,
    {
        Leaked { leaked: leak(value) }
    }

    /// The kept value.
    pub fn get(&self) -> (r: &'static T)
        ensures
            *r == self@,
    {
        self.leaked
    }
}

/// Something that hands out one long-lived copy of each value it is given.
pub trait Interner<T: View + 'static> {
    /// The values, by their views, that have been interned so far.
    spec fn interned(&self) -> Set<T::V>;

    /// The long-lived copy kept for the content `content`, where that content
    /// has been interned.
    spec fn interned_copy(&self, content: T::V) -> T;

    /// Hands out the long-lived copy of `value`, making one if there is none
    /// yet: the copy kept for that content, the same one each time.
    fn intern(&mut self, value: T) -> (r: Interned<T>)
        ensures
            r@ == value@,
            final(self).interned() == old(self).interned().insert(value@),
            *r == final(self).interned_copy(value@),
            old(self).interned().contains(value@) ==> *r == old(self).interned_copy(value@),
            forall|content: T::V|
                old(self).interned().contains(content) ==> #[trigger] final(self).interned_copy(content)
                    == old(self).interned_copy(content),
    ;
}

/// A set of long-lived values, at most one for each content.
#[verifier::external_body]
#[verifier::reject_recursive_types(T)]
pub struct InternedSet<T: 'static> {
    set: hashbrown::HashSet<&'static T>,
}

/// The strings that a set holds, each under its content.
pub uninterp spec fn interned_set_contents(set: InternedSet<String>) -> Map<Seq<char>, String>;

/// Makes an empty set (`hashbrown::HashSet::new`).
#[verifier::external_body]
fn interned_set_new() -> (r: InternedSet<String>)
    ensures
        interned_set_contents(r).dom() == Set::<Seq<char>>::empty(),
{
    InternedSet { set: hashbrown::HashSet::new() }
}

/// Looks `value` up in the set and, where no equal string is there yet, puts
/// in the leaked copy that `leak_copy` makes of it
/// (`hashbrown::HashSet::get_or_insert_with`); hands back the string that
/// the set holds for it. Where an equal string is there, the set is left as
/// it is and that very string is handed back; otherwise the string handed
/// back is the one added.
#[verifier::external_body]
fn interned_set_get_or_insert(set: &mut InternedSet<String>, value: &String) -> (r: &'static String)
    ensures
        r@ == value@,
        interned_set_contents(*final(set)) == (if interned_set_contents(*old(set)).contains_key(value@) {
            interned_set_contents(*old(set))
        } else {
            interned_set_contents(*old(set)).insert(value@, *r)
        }),
        *r == interned_set_contents(*final(set))[value@],
{
    *set.set.get_or_insert_with(value, leak_copy)
}

/// A leaked copy of `s`.
fn leak_copy(s: &String) -> (r: &'static String)
    ensures
        r@ == s@,
{
    leak(s.clone())
}

/// An interner that keeps each distinct value once, in a hash set.
#[verifier::reject_recursive_types(T)]
pub struct HashSetInterner<T: 'static> {
    set: InternedSet<T>,
}

impl HashSetInterner<String> {
    /// An interner that holds nothing yet.
    pub fn new() -> (r: Self)
        ensures
            r.interned() == Set::<Seq<char>>::empty(),
    {
        let r = HashSetInterner { set: interned_set_new() };
        assert(r.interned() =~= Set::<Seq<char>>::empty());
        r
    }
}

impl Default for HashSetInterner<String> {
    fn default() -> (r: Self)
        ensures
            r.interned() == Set::<Seq<char>>::empty(),
    {
        Self::new()
    }
}

impl Interner<String> for HashSetInterner<String> {
    closed spec fn interned(&self) -> Set<Seq<char>> {
        interned_set_contents(self.set).dom()
    }

    closed spec fn interned_copy(&self, content: Seq<char>) -> String {
        interned_set_contents(self.set)[content]
    }

    fn intern(&mut self, value: String) -> (r: Interned<String>) {
        let r = interned_set_get_or_insert(&mut self.set, &value);
        assert(self.interned() =~= old(self).interned().insert(value@));
        r
    }
}

/// A map from each kept value to its long-lived copy.
#[verifier::external_body]
#[verifier::reject_recursive_types(T)]
pub struct InternedMap<'a, T> {
    map: hashbrown::HashMap<&'a T, &'a T>,
}

/// An interner that would keep each distinct value once, as a key mapped to
/// its long-lived copy.
#[verifier::reject_recursive_types(T)]
pub struct HashMapInterner<'a, T: Internable> {
    map: InternedMap<'a, T>,
}

/// A type whose values can be interned.
pub trait Internable: Sized + View + 'static {
    /// The interner that keeps this type's values.
    type Interner: Interner<Self>;

    /// Hands out the long-lived copy of `value` that `interner` keeps.
    fn intern(interner: &mut Self::Interner, value: Self) -> (r: Interned<Self>)
        ensures
            r@ == value@,
            final(interner).interned() == old(interner).interned().insert(value@),
            *r == final(interner).interned_copy(value@),
            old(interner).interned().contains(value@) ==> *r == old(interner).interned_copy(value@),
            forall|content: <Self as View>::V|
                old(interner).interned().contains(content)
                    ==> #[trigger] final(interner).interned_copy(content)
                    == old(interner).interned_copy(content),
    ;
}

impl Internable for String {
    type Interner = HashSetInterner<String>;

    fn intern(interner: &mut HashSetInterner<String>, value: String) -> (r: Interned<String>) {
        interner.intern(value)
    }
}

/// Interning a value that is already interned leaves the set of interned
/// values as it was.
pub proof fn law_reintern_keeps_set(
    before: HashSetInterner<String>,
    after: HashSetInterner<String>,
    value: Seq<char>,
)
    requires
        before.interned().contains(value),
        after.interned() == before.interned().insert(value),
    ensures
        after.interned() == before.interned(),
{
    assert(before.interned().insert(value) =~= before.interned());
}

/// Interning forgets nothing: every value interned before is still interned
/// after, and so is the new one.
pub proof fn law_intern_keeps_earlier(
    before: HashSetInterner<String>,
    after: HashSetInterner<String>,
    value: Seq<char>,
)
    requires
        after.interned() == before.interned().insert(value),
    ensures
        after.interned().contains(value),
        forall|v: Seq<char>| before.interned().contains(v) ==> #[trigger] after.interned().contains(v),
{
}

/// Every content that `before` has interned is interned in `after` too, with
/// the same copy.
pub open spec fn keeps_copies<T: View + 'static, I: Interner<T>>(before: I, after: I) -> bool {
    forall|content: T::V|
        #[trigger] before.interned().contains(content) ==> after.interned().contains(content)
            && after.interned_copy(content) == before.interned_copy(content)
}

/// An intern keeps every copy handed out before it.
pub proof fn law_intern_keeps_copies<T: View + 'static, I: Interner<T>>(before: I, after: I, value: T)
    requires
        after.interned() == before.interned().insert(value@),
        forall|content: T::V|
            before.interned().contains(content) ==> #[trigger] after.interned_copy(content)
                == before.interned_copy(content),
    ensures
        keeps_copies::<T, I>(before, after),
{
}

/// Keeping copies carries over a run of interns: what a state keeps of an
/// earlier one, a later state keeps too.
pub proof fn law_keeps_copies_transitive<T: View + 'static, I: Interner<T>>(first: I, second: I, third: I)
    requires
        keeps_copies::<T, I>(first, second),
        keeps_copies::<T, I>(second, third),
    ensures
        keeps_copies::<T, I>(first, third),
{
    assert forall|content: T::V| #[trigger] first.interned().contains(content) implies third.interned().contains(content)
        && third.interned_copy(content) == first.interned_copy(content) by {
        assert(second.interned().contains(content));
    }
}

/// Interning equal content twice into one interner, with any interning in
/// between, hands out the same copy both times: the copy handed out first
/// stays the interner's copy for that content, and the second intern hands
/// out the interner's copy.
pub proof fn law_equal_content_same_copy<T: View + 'static, I: Interner<T>>(
    after_first: I,
    later: I,
    first: T,
    second: T,
)
    requires
        first@ == second@,
        after_first.interned().contains(first@),
        first == after_first.interned_copy(first@),
        keeps_copies::<T, I>(after_first, later),
        later.interned().contains(second@) ==> second == later.interned_copy(second@),
    ensures
        second == first,
{
    assert(after_first.interned().contains(first@));
}

/// Hands out the long-lived copy of `value` that `interner` keeps, making
/// one if there is none yet.
pub fn intern<T: Internable>(interner: &mut T::Interner, value: T) -> (r: Interned<T>)
    ensures
        r@ == value@,
        final(interner).interned() == old(interner).interned().insert(value@),
        *r == final(interner).interned_copy(value@),
        old(interner).interned().contains(value@) ==> *r == old(interner).interned_copy(value@),
        forall|content: <T as View>::V|
            old(interner).interned().contains(content)
                ==> #[trigger] final(interner).interned_copy(content)
                == old(interner).interned_copy(content),
{
    T::intern(interner, value)
}

} // verus!
