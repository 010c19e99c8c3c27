//! The counter page's reactive state: a single integer, moved one step
//! per button click.

use vstd::prelude::*;

verus! {

/// A single click on one of the counter page's two buttons.
#[derive(Clone, Copy, PartialEq, Eq, Structural, Debug)]
pub enum Click {
    /// The "Up high!" button: one step up.
    Up,
    /// The "Down low!" button: one step down.
    Down,
}

/// The counter owned by one mounted counter page.
///
/// The value starts at 0 and moves by one per click. The page puts no
/// bound on it, so a machine policy has to be chosen for the ends of the
/// representable range: the counter saturates at `i64::MIN` and
/// `i64::MAX` rather than wrapping or failing.
#[derive(Clone, Copy, PartialEq, Eq, Structural, Debug)]
pub struct Counter {
    pub value: i64,
}

/// The value one click takes the counter to: one up or one down,
/// saturating at the ends of the `i64` range.
pub open spec fn click_step(v: int, c: Click) -> int {
    match c {
        Click::Up => if v == i64::MAX { v } else { v + 1 },
        Click::Down => if v == i64::MIN { v } else { v - 1 },
    }
}

/// The value reached from `v` after a whole sequence of clicks,
/// delivered one at a time, earliest first.
pub open spec fn run_clicks_spec(v: int, s: Seq<Click>) -> int
    decreases s.len(),
{
    if s.len() == 0 {
        v
    } else {
        run_clicks_spec(click_step(v, s[0]), s.subrange(1, s.len() as int))
    }
}

impl Counter {
    /// A freshly mounted page's counter reads 0.
    pub fn new() -> (c: Counter)
        ensures
            c.value == 0,
    {
        Counter { value: 0 }
    }

    /// The current value, as the heading displays it.
    pub fn get(&self) -> (v: i64)
        ensures
            v == self.value,
    {
        self.value
    }

    /// The "Up high!" click handler: one step up.
    pub fn up(&mut self)
        ensures
            final(self).value == click_step(old(self).value as int, Click::Up),
    {
        if self.value < i64::MAX {
            self.value = self.value + 1;
        }
    }

    /// The "Down low!" click handler: one step down.
    pub fn down(&mut self)
        ensures
            final(self).value == click_step(old(self).value as int, Click::Down),
    {
        if self.value > i64::MIN {
            self.value = self.value - 1;
        }
    }

    /// Deliver one click to the counter.
    pub fn apply(&mut self, c: Click)
        ensures
            final(self).value == click_step(old(self).value as int, c),
    {
        match c {
            Click::Up => self.up(),
            Click::Down => self.down(),
        }
    }
}

/// Delivering one more click after a sequence steps the sequence's
/// result once.
pub proof fn lemma_run_clicks_snoc(v: int, s: Seq<Click>, c: Click)
    ensures
        run_clicks_spec(v, s.push(c)) == click_step(run_clicks_spec(v, s), c),
    decreases s.len(),
{
    let t = s.push(c);
    assert(t.len() == s.len() + 1);
    if s.len() == 0 {
        assert(t[0] == c);
        assert(t.subrange(1, t.len() as int) =~= Seq::<Click>::empty());
        assert(run_clicks_spec(v, t) == run_clicks_spec(click_step(v, c), Seq::<Click>::empty()));
        assert(run_clicks_spec(click_step(v, c), Seq::<Click>::empty()) == click_step(v, c));
        assert(run_clicks_spec(v, s) == v);
    } else {
        let sub = s.subrange(1, s.len() as int);
        assert(t[0] == s[0]);
        assert(t.subrange(1, t.len() as int) =~= sub.push(c));
        assert(run_clicks_spec(v, t) == run_clicks_spec(click_step(v, s[0]), sub.push(c)));
        lemma_run_clicks_snoc(click_step(v, s[0]), sub, c);
        assert(run_clicks_spec(v, s) == run_clicks_spec(click_step(v, s[0]), sub));
    }
}

/// Clicks delivered back to back run as one sequence: the second batch
/// starts from where the first one left the counter.
pub proof fn lemma_run_clicks_concat(v: int, a: Seq<Click>, b: Seq<Click>)
    ensures
        run_clicks_spec(v, a + b) == run_clicks_spec(run_clicks_spec(v, a), b),
    decreases a.len(),
{
    if a.len() == 0 {
        assert(a + b =~= b);
    } else {
        let sub = a.subrange(1, a.len() as int);
        assert((a + b)[0] == a[0]);
        assert((a + b).subrange(1, (a + b).len() as int) =~= sub + b);
        assert(run_clicks_spec(v, a + b) == run_clicks_spec(click_step(v, a[0]), sub + b));
        lemma_run_clicks_concat(click_step(v, a[0]), sub, b);
        assert(run_clicks_spec(v, a) == run_clicks_spec(click_step(v, a[0]), sub));
    }
}

/// `n` clicks of the "Up high!" button, in the order delivered.
pub open spec fn ups(n: nat) -> Seq<Click> {
    Seq::new(n, |i: int| Click::Up)
}

/// `m` clicks of the "Down low!" button, in the order delivered.
pub open spec fn downs(m: nat) -> Seq<Click> {
    Seq::new(m, |i: int| Click::Down)
}

/// As long as the counter stays in range, `n` up clicks add `n`.
pub proof fn lemma_run_ups(v: int, n: nat)
    requires
        i64::MIN <= v,
        v + n <= i64::MAX,
    ensures
        run_clicks_spec(v, ups(n)) == v + n,
    decreases n,
{
    if n == 0 {
        assert(ups(0) =~= Seq::<Click>::empty());
    } else {
        assert(ups(n)[0] == Click::Up);
        assert(ups(n).subrange(1, n as int) =~= ups((n - 1) as nat));
        assert(run_clicks_spec(v, ups(n)) == run_clicks_spec(v + 1, ups((n - 1) as nat)));
        lemma_run_ups(v + 1, (n - 1) as nat);
    }
}

/// As long as the counter stays in range, `m` down clicks take `m` away.
pub proof fn lemma_run_downs(v: int, m: nat)
    requires
        v <= i64::MAX,
        i64::MIN <= v - m,
    ensures
        run_clicks_spec(v, downs(m)) == v - m,
    decreases m,
{
    if m == 0 {
        assert(downs(0) =~= Seq::<Click>::empty());
    } else {
        assert(downs(m)[0] == Click::Down);
        assert(downs(m).subrange(1, m as int) =~= downs((m - 1) as nat));
        assert(run_clicks_spec(v, downs(m)) == run_clicks_spec(v - 1, downs((m - 1) as nat)));
        lemma_run_downs(v - 1, (m - 1) as nat);
    }
}

/// From a freshly mounted page, `n` "Up high!" clicks followed by `m`
/// "Down low!" clicks leave the counter at `n - m`, whenever the run
/// stays inside the saturation bounds: the climb tops out at `i64::MAX`
/// and the final value stays at or above `i64::MIN`.
pub proof fn lemma_ups_then_downs(n: nat, m: nat)
    requires
        n <= i64::MAX,
        i64::MIN <= n - m,
    ensures
        run_clicks_spec(0, ups(n) + downs(m)) == n - m,
{
    lemma_run_clicks_concat(0, ups(n), downs(m));
    lemma_run_ups(0, n);
    lemma_run_downs(n as int, m);
}

/// Mount a counter page and deliver a whole sequence of clicks to it.
pub fn run_clicks(clicks: &Vec<Click>) -> (c: Counter)
    ensures
        c.value == run_clicks_spec(0, clicks@),
{
    let mut c = Counter::new();
    let mut i: usize = 0;
    while i < clicks.len()
        invariant
            i <= clicks.len(),
            c.value == run_clicks_spec(0, clicks@.subrange(0, i as int)),
        decreases clicks.len() - i,
    {
        proof {
            lemma_run_clicks_snoc(0, clicks@.subrange(0, i as int), clicks@[i as int]);
            assert(clicks@.subrange(0, i as int).push(clicks@[i as int]) =~= clicks@.subrange(
                0,
                i as int + 1,
            ));
        }
        c.apply(clicks[i]);
        i = i + 1;
    }
    proof {
        assert(clicks@.subrange(0, clicks@.len() as int) =~= clicks@);
    }
    c
}

} // verus!
