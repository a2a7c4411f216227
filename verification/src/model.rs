//! Abstract values of results, and copies that keep them.

use vstd::prelude::*;

verus! {

/// Copying that keeps the abstract value.
pub trait Duplicate: DeepView + Sized {
    /// A value with the same abstract value.
    fn duplicate(&self) -> (r: Self)
        ensures
            r.deep_view() == self.deep_view(),
    ;
}

impl Duplicate for String {
    fn duplicate(&self) -> (r: Self) {
        self.clone()
    }
}

impl Duplicate for u8 {
    fn duplicate(&self) -> (r: Self) {
        *self
    }
}

impl Duplicate for i64 {
    fn duplicate(&self) -> (r: Self) {
        *self
    }
}

impl Duplicate for () {
    fn duplicate(&self) -> (r: Self) {
        *self
    }
}

impl Duplicate for bool {
    fn duplicate(&self) -> (r: Self) {
        *self
    }
}

impl Duplicate for u32 {
    fn duplicate(&self) -> (r: Self) {
        *self
    }
}

impl Duplicate for u64 {
    fn duplicate(&self) -> (r: Self) {
        *self
    }
}

impl Duplicate for i32 {
    fn duplicate(&self) -> (r: Self) {
        *self
    }
}

impl<T: Duplicate> Duplicate for Option<T> {
    fn duplicate(&self) -> (r: Self) {
        match self {
            Some(v) => Some(v.duplicate()),
            None => None,
        }
    }
}

impl<T: Duplicate> Duplicate for Vec<T> {
    fn duplicate(&self) -> (r: Self) {
        let mut r: Vec<T> = Vec::new();
        let mut i: usize = 0;
        while i < self.len()
            invariant
                i <= self@.len(),
                r@.len() == i,
                forall|j: int| 0 <= j < i ==> (#[trigger] r@[j]).deep_view() == self@[j].deep_view(),
            decreases self@.len() - i,
        {
            r.push(self[i].duplicate());
            i = i + 1;
        }
        assert(r.deep_view() =~= self.deep_view());
        r
    }
}

/// The abstract value of a result.
pub open spec fn result_view<T: DeepView, E: DeepView>(r: Result<T, E>) -> Result<T::V, E::V> {
    match r {
        Ok(v) => Ok(v.deep_view()),
        Err(e) => Err(e.deep_view()),
    }
}

/// A result with the same abstract value.
pub fn duplicate_result<T: Duplicate, E: Duplicate>(r: &Result<T, E>) -> (s: Result<T, E>)
    ensures
        result_view(s) == result_view(*r),
{
    match r {
        Ok(v) => Ok(v.duplicate()),
        Err(e) => Err(e.duplicate()),
    }
}

/// What was in a list stays in it when something is added.
pub proof fn push_keeps<A>(l: Seq<A>, y: A)
    ensures
        l.push(y).contains(y),
        forall|x: A| #[trigger] l.contains(x) ==> l.push(y).contains(x),
{
    assert(l.push(y)[l.len() as int] == y);
    assert forall|x: A| #[trigger] l.contains(x) implies l.push(y).contains(x) by {
        let i = choose|i: int| 0 <= i < l.len() && l[i] == x;
        assert(l.push(y)[i] == x);
    }
}

/// Where among the words of a command a flag stands first, with a word behind
/// it.
pub open spec fn flag_at(words: Seq<Seq<char>>, flag: Seq<char>, i: int) -> bool {
    &&& 0 <= i < words.len() - 1
    &&& words[i] == flag
    &&& forall|j: int| 0 <= j < i ==> #[trigger] words[j] != flag
}

/// The word behind a flag in a command, as a program reads it.
pub open spec fn option(words: Seq<Seq<char>>, flag: Seq<char>) -> Option<Seq<char>> {
    if exists|i: int| flag_at(words, flag, i) {
        Some(words[(choose|i: int| flag_at(words, flag, i)) + 1])
    } else {
        None
    }
}

/// A flag that stands somewhere first has the word behind it.
pub proof fn option_at(words: Seq<Seq<char>>, flag: Seq<char>, i: int)
    requires
        flag_at(words, flag, i),
    ensures
        option(words, flag) == Some(words[i + 1]),
{
    let k = choose|k: int| flag_at(words, flag, k);
    if k < i {
        assert(words[k] != flag);
    } else if i < k {
        assert(words[i] != flag);
    }
}

/// Whether a word cannot be taken for a flag.
pub open spec fn plain(word: Seq<char>) -> bool {
    word.len() == 0 || word[0] != '-'
}

} // verus!
