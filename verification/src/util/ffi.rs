//! Argument vectors for calls that take a C `char **`.
//!
//! The runtime wants a command line as an array of pointers to NUL-terminated
//! strings, closed by a null pointer. [`CStringVec`] owns the strings and
//! lays that array out. An entry of the array is a [`RawPtr`]: it names the
//! owned string that the pointer in its place points to, so the array can be
//! stated, compared and checked without an address in it. The caller that
//! makes the call puts the addresses in, entry by entry.

use vstd::prelude::*;

use crate::error::Error;

verus! {

/// One entry of the raw view of a [`CStringVec`].
#[derive(Debug, Clone, Copy, PartialEq, Eq, Structural)]
pub enum RawPtr {
    /// The address of the owned string with this index.
    Arg(usize),
    /// The null pointer.
    Null,
}

/// Whether `text` holds a NUL character, which would end a C string early.
pub open spec fn has_nul(text: Seq<char>) -> bool {
    exists|i: int| 0 <= i < text.len() && text[i] == '\0'
}

/// The raw view of `n` strings: a pointer to each, in order, and a null
/// pointer behind the last.
pub open spec fn raw_view(n: nat) -> Seq<RawPtr> {
    Seq::new(
        n + 1,
        |i: int|
            if i < n {
                RawPtr::Arg(i as usize)
            } else {
                RawPtr::Null
            },
    )
}

/// The null pointer stands at the end of a raw view and nowhere else in it.
pub proof fn lemma_raw_view_ends_in_single_null(n: nat)
    ensures
        raw_view(n).len() == n + 1,
        forall|i: int| 0 <= i <= n ==> (#[trigger] raw_view(n)[i] == RawPtr::Null <==> i == n),
{
}

/// A raw view points to the strings in the order in which they are owned.
pub proof fn lemma_raw_view_keeps_order(n: nat, i: int)
    requires
        0 <= i < n <= usize::MAX,
    ensures
        raw_view(n)[i] == RawPtr::Arg(i as usize),
        raw_view(n)[i]->Arg_0 == i,
{
}

/// Whether `text` holds a NUL character.
pub fn contains_nul(text: &str) -> (found: bool)
    ensures
        found == has_nul(text@),
{
    for c in it: text.chars()
        invariant
            it.seq() == text@,
            forall|j: int| 0 <= j < it.index() ==> text@[j] != '\0',
    {
        if c == '\0' {
            return true;
        }
    }
    false
}

/// Helper to create a C string array (`char **`) variable with the ownership
/// still in Rust code. The raw version of this will contain a trailing
/// [`RawPtr::Null`].
///
/// The raw version is not kept up to date: it is laid out anew by each
/// [`CStringVec::get_raw`] and is stale as soon as a string is added.
#[derive(Debug, PartialEq, Eq)]
pub struct CStringVec {
    owned: Vec<String>,
    ffi: Vec<RawPtr>,
}

impl View for CStringVec {
    type V = Seq<Seq<char>>;

    /// The owned strings, in the order in which they were added.
    closed spec fn view(&self) -> Seq<Seq<char>> {
        self.owned.deep_view()
    }
}

impl CStringVec {
    /// The raw version as it was last laid out.
    pub closed spec fn raw(&self) -> Seq<RawPtr> {
        self.ffi@
    }

    /// Whether the raw version matches the strings that are owned now.
    pub open spec fn raw_is_current(&self) -> bool {
        self.raw() == raw_view(self@.len())
    }

    #[verifier::type_invariant]
    spec fn well_formed(&self) -> bool {
        &&& forall|i: int| 0 <= i < self@.len() ==> !has_nul(#[trigger] self@[i])
        &&& self.ffi@.len() <= self.owned@.len() + 1
    }

    /// Create a new empty vector.
    pub fn new() -> (v: Self)
        ensures
            v@ == Seq::<Seq<char>>::empty(),
            v.raw() == Seq::<RawPtr>::empty(),
    {
        let v = Self { owned: Vec::new(), ffi: Vec::new() };
        v
    }

    /// Add `arg` behind the strings already owned.
    ///
    /// A string with a NUL character in it is refused and changes nothing.
    /// Otherwise the string is owned from now on, and the raw version, which
    /// this call leaves alone, no longer matches.
    pub fn push(&mut self, arg: &str) -> (r: Result<(), Error>)
        ensures
            has_nul(arg@) ==> r == Err::<(), Error>(Error::InvalidArgument) && *final(self) == *old(self),
            !has_nul(arg@) ==> r is Ok && final(self)@ == old(self)@.push(arg@) && final(self).raw()
                == old(self).raw() && !final(self).raw_is_current(),
    {
        if contains_nul(arg) {
            return Err(Error::InvalidArgument);
        }
        proof {
            use_type_invariant(&*self);
        }
        let mut taken = CStringVec::new();
        std::mem::swap(&mut taken, self);
        let CStringVec { mut owned, ffi } = taken;
        owned.push(arg.to_owned());
        assert(owned.deep_view() =~= old(self)@.push(arg@));
        *self = CStringVec { owned, ffi };
        Ok(())
    }

    /// Take the last string out, if there is one.
    ///
    /// The raw version pointed to that string, so it is dropped with it: the
    /// next [`CStringVec::get_raw`] lays a new one out.
    pub fn pop(&mut self) -> (last: Option<String>)
        ensures
            match last {
                Some(text) => {
                    &&& old(self)@.len() > 0
                    &&& text@ == old(self)@.last()
                    &&& final(self)@ == old(self)@.drop_last()
                    &&& final(self).raw() == Seq::<RawPtr>::empty()
                    &&& !final(self).raw_is_current()
                },
                None => old(self)@.len() == 0 && *final(self) == *old(self),
            },
    {
        proof {
            use_type_invariant(&*self);
        }
        if self.owned.len() == 0 {
            return None;
        }
        let mut taken = CStringVec::new();
        std::mem::swap(&mut taken, self);
        let CStringVec { mut owned, mut ffi } = taken;
        let last = owned.pop();
        ffi.truncate(0);
        assert(owned.deep_view() =~= old(self)@.drop_last());
        *self = CStringVec { owned, ffi };
        last
    }

    /// Own a copy of each string of `args`, in their order.
    ///
    /// One string with a NUL character in it makes the whole list unfit.
    pub fn from_args(args: &Vec<String>) -> (r: Result<Self, Error>)
        ensures
            match r {
                Ok(v) => v@ == args.deep_view() && v.raw() == Seq::<RawPtr>::empty(),
                Err(e) => e == Error::InvalidArgument,
            },
            r is Ok <==> forall|i: int| 0 <= i < args.len() ==> !has_nul(#[trigger] args[i]@),
    {
        let mut v = CStringVec::new();
        let n = args.len();
        let mut i: usize = 0;
        while i < n
            invariant
                n == args.len(),
                i <= n,
                v@ == args.deep_view().take(i as int),
                v.raw() == Seq::<RawPtr>::empty(),
                forall|j: int| 0 <= j < i ==> !has_nul(#[trigger] args[j]@),
            decreases n - i,
        {
            if v.push(args[i].as_str()).is_err() {
                return Err(Error::InvalidArgument);
            }
            i += 1;
        }
        Ok(v)
    }

    /// Update the inner `ffi` vector.
    fn update(&mut self)
        ensures
            final(self)@ == old(self)@,
            final(self).raw_is_current(),
    {
        proof {
            use_type_invariant(&*self);
        }
        let mut taken = CStringVec::new();
        std::mem::swap(&mut taken, self);
        let CStringVec { owned, mut ffi } = taken;
        ffi.truncate(0);
        let n = owned.len();
        let mut i: usize = 0;
        while i < n
            invariant
                n == owned@.len(),
                i <= n,
                ffi@ == raw_view(n as nat).take(i as int),
                owned.deep_view() == old(self)@,
                forall|j: int| 0 <= j < old(self)@.len() ==> !has_nul(#[trigger] old(self)@[j]),
            decreases n - i,
        {
            ffi.push(RawPtr::Arg(i));
            i += 1;
        }
        ffi.push(RawPtr::Null);
        assert(ffi@ =~= raw_view(n as nat));
        *self = CStringVec { owned, ffi };
    }

    /// Get a reference to the ffi vector. We return a reference to the `Vec`
    /// type instead of handing out a copy to explicitly show that this
    /// borrows `self`!
    ///
    /// The vector is laid out anew on every call, so what comes back always
    /// matches the strings owned: one entry for each, in the order in which
    /// they were added, and one [`RawPtr::Null`] behind them.
    pub fn get_raw<'a>(&'a mut self) -> (raw: &'a Vec<RawPtr>)
        ensures
            final(self)@ == old(self)@,
            raw@ == raw_view(old(self)@.len()),
            final(self).raw() == raw@,
            old(self).raw_is_current() ==> final(self).raw() == old(self).raw(),
    {
        self.update();
        &self.ffi
    }
}

// Implement `Deref<Vec<String>>` so we can read this type exactly as if it
// actually were just the inner `Vec<String>`. There is no `DerefMut`: a
// string gets in through `push`, which looks at it first, and out through
// `pop`.
impl std::ops::Deref for CStringVec {
    type Target = Vec<String>;

    fn deref(&self) -> (owned: &Vec<String>)
        ensures
            owned.deep_view() == self@,
            forall|i: int| 0 <= i < owned.len() ==> !has_nul(#[trigger] owned[i]@),
    {
        proof {
            use_type_invariant(self);
            assert forall|i: int| 0 <= i < self.owned.len() implies !has_nul(
                #[trigger] self.owned[i]@,
            ) by {
                assert(self@[i] == self.owned[i]@);
            }
        }
        &self.owned
    }
}

impl Default for CStringVec {
    fn default() -> (v: Self)
        ensures
            v@ == Seq::<Seq<char>>::empty(),
            v.raw() == Seq::<RawPtr>::empty(),
    {
        CStringVec::new()
    }
}

} // verus!
