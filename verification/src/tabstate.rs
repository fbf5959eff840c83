//! The tab navigation state machine: an ordered list of display titles and
//! the currently selected index, with forward, backward and numeric-jump
//! navigation.

use vstd::prelude::*;
use vstd::arithmetic::div_mod::{
    lemma_mod_add_multiples_vanish, lemma_mod_self_0, lemma_small_mod,
};

verus! {

/// The index reached by one forward step from `i` among `n` tabs:
/// `i + 1`, wrapping from the last tab to the first.
pub open spec fn next_index(i: nat, n: nat) -> nat
    recommends
        n > 0,
        i < n,
{
    if i + 1 < n {
        i + 1
    } else {
        0
    }
}

/// The index reached by one backward step from `i` among `n` tabs:
/// `i - 1`, wrapping from the first tab to the last.
pub open spec fn prev_index(i: nat, n: nat) -> nat
    recommends
        n > 0,
        i < n,
{
    if i > 0 {
        (i - 1) as nat
    } else {
        (n - 1) as nat
    }
}

/// The index selected by a 1-based numeric jump to tab `tab` among `n` tabs:
/// `tab - 1`, clamped to the last valid index when `tab` is out of range.
pub open spec fn jump_target(tab: nat, n: nat) -> nat
    recommends
        n > 0,
        tab >= 1,
{
    if tab >= n {
        (n - 1) as nat
    } else {
        (tab - 1) as nat
    }
}

/// The index reached from `i` by `k` forward steps among `n` tabs.
pub open spec fn iterated_next(i: nat, n: nat, k: nat) -> nat
    recommends
        n > 0,
        i < n,
    decreases k,
{
    if k == 0 {
        i
    } else {
        iterated_next(next_index(i, n), n, (k - 1) as nat)
    }
}

/// The character for a single decimal digit `d`.
pub open spec fn digit_char(d: nat) -> char
    recommends
        d < 10,
{
    if d == 0 {
        '0'
    } else if d == 1 {
        '1'
    } else if d == 2 {
        '2'
    } else if d == 3 {
        '3'
    } else if d == 4 {
        '4'
    } else if d == 5 {
        '5'
    } else if d == 6 {
        '6'
    } else if d == 7 {
        '7'
    } else if d == 8 {
        '8'
    } else {
        '9'
    }
}

/// The decimal representation of `n`, most significant digit first.
pub open spec fn decimal_digits(n: nat) -> Seq<char>
    decreases n,
{
    if n < 10 {
        seq![digit_char(n)]
    } else {
        decimal_digits(n / 10).push(digit_char(n % 10))
    }
}

/// The display label of the title `title` at 1-based position `pos`:
/// the position in decimal, a dot, then the title.
pub open spec fn label_chars(pos: nat, title: Seq<char>) -> Seq<char> {
    decimal_digits(pos) + seq!['.'] + title
}

proof fn lemma_decimal_digits_nonempty(n: nat)
    ensures
        decimal_digits(n).len() >= 1,
{
    reveal_with_fuel(decimal_digits, 2);
}

fn digit_str(d: usize) -> (r: &'static str)
    requires
        d < 10,
    ensures
        r@ =~= seq![digit_char(d as nat)],
{
    let r: &'static str = if d == 0 {
        "0"
    } else if d == 1 {
        "1"
    } else if d == 2 {
        "2"
    } else if d == 3 {
        "3"
    } else if d == 4 {
        "4"
    } else if d == 5 {
        "5"
    } else if d == 6 {
        "6"
    } else if d == 7 {
        "7"
    } else if d == 8 {
        "8"
    } else {
        "9"
    };
    proof {
        reveal_strlit("0");
        reveal_strlit("1");
        reveal_strlit("2");
        reveal_strlit("3");
        reveal_strlit("4");
        reveal_strlit("5");
        reveal_strlit("6");
        reveal_strlit("7");
        reveal_strlit("8");
        reveal_strlit("9");
    }
    r
}

/// Renders `n` in decimal.
fn decimal_string(n: usize) -> (r: String)
    ensures
        r@ == decimal_digits(n as nat),
    decreases n,
{
    if n < 10 {
        String::from_str(digit_str(n))
    } else {
        let mut s = decimal_string(n / 10);
        s.append(digit_str(n % 10));
        proof {
            assert(s@ =~= decimal_digits(n as nat));
        }
        s
    }
}

/// The ordered list of display titles and the currently selected tab.
pub struct TabsState {
    pub titles: Vec<String>,
    pub index: usize,
}

impl TabsState {
    /// The state is well formed: there is at least one tab and the selected
    /// index points at one of them.
    pub open spec fn wf(self) -> bool {
        &&& self.titles@.len() > 0
        &&& self.index < self.titles@.len()
    }

    /// Every display title has at least one character.
    pub open spec fn nonempty_titles(self) -> bool {
        forall|i: int| 0 <= i < self.titles@.len() ==> self.titles@[i]@.len() >= 1
    }

    /// Builds the state from the configured tab names: each name is prefixed
    /// with its 1-based position and a dot, and the first tab is selected.
    pub fn new(titles: Vec<String>) -> (r: TabsState)
        requires
            titles@.len() > 0,
        ensures
            r.wf(),
            r.nonempty_titles(),
            r.index == 0,
            r.titles@.len() == titles@.len(),
            forall|i: int|
                0 <= i < titles@.len() ==> r.titles@[i]@ == label_chars(
                    (i + 1) as nat,
                    titles@[i]@,
                ),
    {
        let mut indexed_titles: Vec<String> = Vec::new();
        let mut i: usize = 0;
        while i < titles.len()
            invariant
                i <= titles@.len(),
                indexed_titles@.len() == i,
                forall|j: int|
                    0 <= j < i ==> indexed_titles@[j]@ == label_chars(
                        (j + 1) as nat,
                        titles@[j]@,
                    ),
            decreases titles@.len() - i,
        {
            let mut label = decimal_string(i + 1);
            label.append(".");
            label.append(titles[i].as_str());
            proof {
                reveal_strlit(".");
                assert(label@ =~= label_chars((i + 1) as nat, titles@[i as int]@));
            }
            indexed_titles.push(label);
            i = i + 1;
        }
        let r = TabsState { titles: indexed_titles, index: 0 };
        proof {
            assert forall|i2: int| 0 <= i2 < r.titles@.len() implies r.titles@[i2]@.len() >= 1 by {
                lemma_decimal_digits_nonempty((i2 + 1) as nat);
            }
        }
        r
    }

    /// Advances the selection one tab forward, wrapping from the last tab to
    /// the first. The titles are unchanged.
    pub fn next(&mut self)
        requires
            old(self).wf(),
        ensures
            final(self).wf(),
            final(self).titles == old(self).titles,
            final(self).index == next_index(old(self).index as nat, old(self).titles@.len()),
    {
        let n = self.titles.len();
        let i = self.index;
        proof {
            if i + 1 < n {
                lemma_small_mod((i + 1) as nat, n as nat);
            } else {
                lemma_mod_self_0(n as int);
            }
        }
        self.index = (i + 1) % n;
    }

    /// Moves the selection one tab backward, wrapping from the first tab to
    /// the last. The titles are unchanged.
    pub fn previous(&mut self)
        requires
            old(self).wf(),
        ensures
            final(self).wf(),
            final(self).titles == old(self).titles,
            final(self).index == prev_index(old(self).index as nat, old(self).titles@.len()),
    {
        if self.index > 0 {
            self.index = self.index - 1;
        } else {
            self.index = self.titles.len() - 1;
        }
    }

    /// Selects tab `tab` (1-based). An out-of-range `tab` selects the last
    /// tab instead of failing. An in-range target is reached by repeated
    /// forward steps, so the selection traverses the tabs in wrap-around
    /// order; only the final index is observable.
    pub fn jump(&mut self, tab: usize)
        requires
            old(self).wf(),
            tab >= 1,
        ensures
            final(self).wf(),
            final(self).titles == old(self).titles,
            final(self).index == jump_target(tab as nat, old(self).titles@.len()),
    {
        let ghost orig_titles = self.titles;
        if tab >= self.titles.len() {
            self.index = self.titles.len() - 1;
            return;
        }
        let target = tab - 1;
        while self.index != target
            invariant
                self.wf(),
                self.titles == orig_titles,
                target < self.titles@.len(),
            decreases
                    if target >= self.index {
                        target - self.index
                    } else {
                        target + self.titles@.len() - self.index
                    },
        {
            self.next();
        }
    }
}

/// Law: one forward step and one backward step, in either order, restore the
/// selected index, including across the wrap-around at either boundary.
pub proof fn lemma_next_previous_inverse(i: nat, n: nat)
    requires
        n > 0,
        i < n,
    ensures
        prev_index(next_index(i, n), n) == i,
        next_index(prev_index(i, n), n) == i,
{
}

pub proof fn lemma_iterated_next_adds(i: nat, n: nat, k: nat)
    requires
        n > 0,
        i < n,
    ensures
        iterated_next(i, n, k) == (i + k) % n,
    decreases k,
{
    if k == 0 {
        lemma_small_mod(i, n);
    } else {
        let j = next_index(i, n);
        lemma_iterated_next_adds(j, n, (k - 1) as nat);
        if i + 1 < n {
            assert(j + (k - 1) == i + k);
        } else {
            assert(i == n - 1);
            lemma_mod_add_multiples_vanish((j + (k - 1)) as int, n as int);
            assert((n + (j + (k - 1))) % (n as int) == (j + (k - 1)) % (n as int));
            assert(n + j + (k - 1) == i + k);
        }
    }
}

/// Law: advancing as many times as there are tabs returns to the original
/// selected index.
pub proof fn lemma_next_cycles(i: nat, n: nat)
    requires
        n > 0,
        i < n,
    ensures
        iterated_next(i, n, n) == i,
{
    lemma_iterated_next_adds(i, n, n);
    lemma_mod_add_multiples_vanish(i as int, n as int);
    lemma_small_mod(i, n);
}

} // verus!
