//! Tokens that tell the I/O sources of the reactor apart.
use vstd::prelude::*;

verus! {

/// The token of an I/O source.
#[derive(Debug, Clone, Copy, PartialEq, Eq, Hash, Structural)]
pub struct Token(pub usize);

/// The counter from which tokens are drawn; it starts at 1.
pub struct TokenCounter {
    next: usize,
}

impl TokenCounter {
    /// The token that the counter gives next.
    pub closed spec fn spec_next(&self) -> usize {
        self.next
    }

    /// A counter whose first token is 1.
    pub fn new() -> (r: Self)
        ensures
            r.spec_next() == 1,
    {
        TokenCounter { next: 1 }
    }
}

impl Token {
    /// Draws the next token from `counter`; the counter moves on by one, wrapping
    /// around at the end of the range of `usize`.
    pub fn next(counter: &mut TokenCounter) -> (r: Token)
        ensures
            r.0 == old(counter).spec_next(),
            final(counter).spec_next() == advance(old(counter).spec_next()),
    {
        let t = counter.next;
        counter.next = if counter.next == usize::MAX {
            0
        } else {
            counter.next + 1
        };
        Token(t)
    }
}

/// The value of the counter after one draw.
pub open spec fn advance(n: usize) -> usize {
    if n == usize::MAX {
        0
    } else {
        (n + 1) as usize
    }
}

/// The token of the `k`-th draw (from 0) from a counter at `start`.
pub open spec fn nth_token(start: usize, k: nat) -> usize
    decreases k,
{
    if k == 0 {
        start
    } else {
        advance(nth_token(start, (k - 1) as nat))
    }
}

/// Tokens are never reused while the counter does not wrap around: the `k`-th
/// draw from a counter at `start` gives `start + k`, so two different draws give
/// different tokens.
pub proof fn law_tokens_distinct(start: usize, i: nat, j: nat)
    requires
        start + i <= usize::MAX,
        start + j <= usize::MAX,
        i != j,
    ensures
        nth_token(start, i) == start + i,
        nth_token(start, i) != nth_token(start, j),
{
    lemma_nth_token(start, i);
    lemma_nth_token(start, j);
}

/// Without wrapping around, the `k`-th draw gives `start + k`.
proof fn lemma_nth_token(start: usize, k: nat)
    requires
        start + k <= usize::MAX,
    ensures
        nth_token(start, k) == start + k,
    decreases k,
{
    if k > 0 {
        lemma_nth_token(start, (k - 1) as nat);
    }
}

} // verus!
