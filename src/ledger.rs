use vstd::prelude::*;

verus! {

/// Opaque user data that has been handed to the native engine and not yet
/// handed back.
///
/// Each attached value is filed under a nonzero token, which the host passes
/// to the native engine in place of the value. The engine returns the token
/// with the matching output; the value then leaves the ledger, so it is
/// handed back at most once. Zero stands for "no user data".
pub struct UserDataLedger<T> {
    pub entries: Vec<(u64, T)>,
    pub next_token: u64,
}

/// Whether the entries hold a value under `tok`.
pub open spec fn holds<T>(entries: Seq<(u64, T)>, tok: u64) -> bool {
    exists|i: int| 0 <= i < entries.len() && (#[trigger] entries[i]).0 == tok
}

/// What taking `tok` out of the entries returns, and the entries left.
pub open spec fn take_spec<T>(entries: Seq<(u64, T)>, tok: u64) -> (Option<T>, Seq<(u64, T)>) {
    if holds(entries, tok) {
        let i = choose|i: int| 0 <= i < entries.len() && (#[trigger] entries[i]).0 == tok;
        (Some(entries[i].1), entries.remove(i))
    } else {
        (None, entries)
    }
}

impl<T> UserDataLedger<T> {
    /// Tokens are nonzero, distinct, and below `next_token`.
    pub open spec fn wf(&self) -> bool {
        &&& self.next_token >= 1
        &&& forall|i: int|
            0 <= i < self.entries@.len() ==> 1 <= (#[trigger] self.entries@[i]).0
                < self.next_token
        &&& forall|i: int, j: int|
            0 <= i < j < self.entries@.len() ==> (#[trigger] self.entries@[i]).0
                != (#[trigger] self.entries@[j]).0
    }

    /// The number of values handed over and not yet handed back.
    pub open spec fn outstanding(&self) -> nat {
        self.entries@.len()
    }

    /// An empty ledger.
    pub fn new() -> (l: UserDataLedger<T>)
        ensures
            l.wf(),
            l.entries@.len() == 0,
            l.next_token == 1,
    {
        UserDataLedger { entries: Vec::new(), next_token: 1 }
    }

    /// Whether another value can be filed.
    pub open spec fn can_file(&self) -> bool {
        self.next_token < u64::MAX
    }

    /// Files `value` and returns its token.
    pub fn file(&mut self, value: T) -> (tok: u64)
        requires
            old(self).wf(),
            old(self).can_file(),
        ensures
            final(self).wf(),
            tok == old(self).next_token,
            tok != 0,
            !holds(old(self).entries@, tok),
            final(self).entries@ == old(self).entries@.push((tok, value)),
            final(self).next_token == old(self).next_token + 1,
    {
        let tok = self.next_token;
        self.entries.push((tok, value));
        self.next_token = tok + 1;
        proof {
            assert forall|i: int| 0 <= i < old(self).entries@.len() implies
                (#[trigger] old(self).entries@[i]).0 != tok by {}
        }
        tok
    }

    /// Takes the value filed under `tok` out of the ledger, if there is one.
    pub fn take(&mut self, tok: u64) -> (r: Option<T>)
        requires
            old(self).wf(),
        ensures
            final(self).wf(),
            (r, final(self).entries@) == take_spec(old(self).entries@, tok),
            final(self).next_token == old(self).next_token,
    {
        let n = self.entries.len();
        let mut i: usize = 0;
        while i < n
            invariant
                n == self.entries@.len(),
                0 <= i <= n,
                self == old(self),
                self.wf(),
                forall|k: int| 0 <= k < i ==> (#[trigger] self.entries@[k]).0 != tok,
            decreases n - i,
        {
            if self.entries[i].0 == tok {
                let ghost before = self.entries@;
                proof {
                    assert(before[i as int].0 == tok);
                    let c = choose|c: int| 0 <= c < before.len() && (#[trigger] before[c]).0 == tok;
                    if c < i as int {
                        assert(before[c].0 != before[i as int].0);
                    } else if c > i as int {
                        assert(before[i as int].0 != before[c].0);
                    }
                    assert(c == i as int);
                }
                let (_, v) = self.entries.remove(i);
                proof {
                    assert forall|a: int, b: int|
                        0 <= a < b < self.entries@.len() implies (#[trigger] self.entries@[a]).0
                        != (#[trigger] self.entries@[b]).0 by {
                        let a0 = if a < i { a } else { a + 1 };
                        let b0 = if b < i { b } else { b + 1 };
                        assert(self.entries@[a] == before[a0]);
                        assert(self.entries@[b] == before[b0]);
                        assert(before[a0].0 != before[b0].0);
                    }
                    assert forall|a: int| 0 <= a < self.entries@.len() implies 1
                        <= (#[trigger] self.entries@[a]).0 < self.next_token by {
                        let a0 = if a < i { a } else { a + 1 };
                        assert(self.entries@[a] == before[a0]);
                    }
                }
                return Some(v);
            }
            i = i + 1;
        }
        None
    }

    /// Drops the value filed under `tok`, if there is one.
    pub fn discard(&mut self, tok: u64)
        requires
            old(self).wf(),
        ensures
            final(self).wf(),
            final(self).entries@ == take_spec(old(self).entries@, tok).1,
            final(self).next_token == old(self).next_token,
    {
        let _ = self.take(tok);
    }
}

/// A value filed under a fresh token comes back once: taking the token
/// returns that value and leaves the ledger as it was before filing, and
/// taking it again returns nothing.
pub proof fn lemma_hand_back_exactly_once<T>(entries: Seq<(u64, T)>, tok: u64, value: T)
    requires
        !holds(entries, tok),
        forall|i: int, j: int|
            0 <= i < j < entries.len() ==> (#[trigger] entries[i]).0 != (#[trigger] entries[j]).0,
    ensures
        take_spec(entries.push((tok, value)), tok) == (Some(value), entries),
        take_spec(take_spec(entries.push((tok, value)), tok).1, tok).0 is None,
{
    let s = entries.push((tok, value));
    let last = entries.len() as int;
    assert(s[last].0 == tok);
    let c = choose|c: int| 0 <= c < s.len() && (#[trigger] s[c]).0 == tok;
    if c < last {
        assert(entries[c].0 == tok);
    }
    assert(c == last);
    assert(s.remove(last) =~= entries);
}

/// Taking a token that was never filed changes nothing.
pub proof fn lemma_unknown_token_untouched<T>(entries: Seq<(u64, T)>, tok: u64)
    requires
        !holds(entries, tok),
    ensures
        take_spec(entries, tok) == (None::<T>, entries),
{
}

} // verus!
