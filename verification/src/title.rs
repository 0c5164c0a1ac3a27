//! Trimming ASCII whitespace from byte strings.
//!
//! The registry's title field is space-padded to its fixed capacity; trimming
//! recovers the bare title wherever it is turned back into a derivation seed.

use vstd::prelude::*;

verus! {

/// An ASCII whitespace byte: space, tab, line feed, form feed or carriage
/// return.
pub open spec fn is_ascii_space(b: u8) -> bool {
    b == 32 || b == 9 || b == 10 || b == 12 || b == 13
}

/// The sequence with its leading ASCII whitespace removed.
pub open spec fn spec_trim_start(s: Seq<u8>) -> Seq<u8>
    decreases s.len(),
{
    if s.len() == 0 {
        s
    } else if is_ascii_space(s[0]) {
        spec_trim_start(s.drop_first())
    } else {
        s
    }
}

/// The sequence with its trailing ASCII whitespace removed.
pub open spec fn spec_trim_end(s: Seq<u8>) -> Seq<u8>
    decreases s.len(),
{
    if s.len() == 0 {
        s
    } else if is_ascii_space(s.last()) {
        spec_trim_end(s.drop_last())
    } else {
        s
    }
}

/// The sequence with ASCII whitespace removed from both ends.
pub open spec fn spec_trim_ascii_whitespace(s: Seq<u8>) -> Seq<u8> {
    spec_trim_end(spec_trim_start(s))
}

fn is_ascii_space_byte(b: u8) -> (r: bool)
    ensures
        r == is_ascii_space(b),
{
    b == 32 || b == 9 || b == 10 || b == 12 || b == 13
}

pub(crate) proof fn lemma_trim_start_skip(s: Seq<u8>, i: int)
    requires
        0 <= i <= s.len(),
        forall|j: int| 0 <= j < i ==> is_ascii_space(s[j]),
    ensures
        spec_trim_start(s) == spec_trim_start(s.subrange(i, s.len() as int)),
    decreases i,
{
    if i > 0 {
        assert(is_ascii_space(s[0]));
        lemma_trim_start_skip(s.drop_first(), i - 1);
        assert(s.drop_first().subrange(i - 1, s.drop_first().len() as int) =~= s.subrange(
            i,
            s.len() as int,
        ));
    } else {
        assert(s.subrange(0, s.len() as int) =~= s);
    }
}

pub(crate) proof fn lemma_trim_end_skip(s: Seq<u8>, i: int)
    requires
        0 <= i <= s.len(),
        forall|j: int| s.len() - i <= j < s.len() ==> is_ascii_space(s[j]),
    ensures
        spec_trim_end(s) == spec_trim_end(s.subrange(0, s.len() - i)),
    decreases i,
{
    if i > 0 {
        assert(is_ascii_space(s.last()));
        lemma_trim_end_skip(s.drop_last(), i - 1);
        assert(s.drop_last().subrange(0, s.drop_last().len() - (i - 1)) =~= s.subrange(
            0,
            s.len() - i,
        ));
    } else {
        assert(s.subrange(0, s.len() as int) =~= s);
    }
}

/// Trimming ASCII whitespace from the start and end of a byte string.
pub trait TrimAsciiWhitespace {
    /// The bytes the trim operates on.
    spec fn byte_view(&self) -> Seq<u8>;

    /// A copy of the bytes with ASCII whitespace removed from both ends.
    fn trim_ascii_whitespace(&self) -> (r: Vec<u8>)
        ensures
            r@ == spec_trim_ascii_whitespace(self.byte_view()),
    ;
}

impl TrimAsciiWhitespace for Vec<u8> {
    open spec fn byte_view(&self) -> Seq<u8> {
        self@
    }

    fn trim_ascii_whitespace(&self) -> (r: Vec<u8>) {
        let n: usize = self.len();
        let mut from: usize = 0;
        while from < n && is_ascii_space_byte(self[from])
            invariant
                0 <= from <= n,
                n == self@.len(),
                forall|j: int| 0 <= j < from ==> is_ascii_space(self@[j]),
            decreases n - from,
        {
            from = from + 1;
        }
        proof {
            lemma_trim_start_skip(self@, from as int);
        }
        if from == n {
            proof {
                assert(self@.subrange(from as int, n as int) =~= Seq::<u8>::empty());
                assert(spec_trim_start(self@) == Seq::<u8>::empty());
            }
            let out: Vec<u8> = Vec::new();
            return out;
        }
        assert(!is_ascii_space(self@[from as int]));
        let ghost stripped: Seq<u8> = self@.subrange(from as int, n as int);
        assert(spec_trim_start(self@) == stripped);
        let mut until: usize = n;
        while is_ascii_space_byte(self[until - 1])
            invariant
                n == self@.len(),
                from < until <= n,
                !is_ascii_space(self@[from as int]),
                forall|m: int| until <= m < n ==> is_ascii_space(self@[m]),
            decreases until,
        {
            until = until - 1;
        }
        proof {
            lemma_trim_end_skip(stripped, (n - until) as int);
            assert(stripped.subrange(0, stripped.len() - (n - until)) =~= self@.subrange(
                from as int,
                until as int,
            ));
            assert(spec_trim_end(self@.subrange(from as int, until as int)) == self@.subrange(
                from as int,
                until as int,
            ));
        }
        let mut out: Vec<u8> = Vec::new();
        let mut k: usize = from;
        while k < until
            invariant
                n == self@.len(),
                from <= k <= until <= n,
                out@ == self@.subrange(from as int, k as int),
            decreases until - k,
        {
            let b: u8 = self[k];
            out.push(b);
            proof {
                assert(self@.subrange(from as int, (k + 1) as int) =~= self@.subrange(
                    from as int,
                    k as int,
                ).push(self@[k as int]));
            }
            k = k + 1;
        }
        out
    }
}

} // verus!
