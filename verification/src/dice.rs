//! Composable dice expressions. A rolled expression is immutable: `result()`
//! returns the outcome it was constructed with, `render()` the exact string
//! showing which physical dice produced it, and `range()` the inclusive
//! bounds the expression shape can ever produce, computed structurally.

use crate::text::{dec_i8, dec_int};
use rand::RngExt;
use vstd::prelude::*;
use vstd::string::StringExecFns;

verus! {

/// Relies on `rand::RngExt::random_range` over `rand::rng()`: returns a value
/// uniformly drawn from `lo..=hi`. It panics only on an empty range, which
/// the precondition excludes; nothing more is assumed of the outcome.
#[verifier::external_body]
pub(crate) fn sample_inclusive(lo: i8, hi: i8) -> (r: i8)
    requires
        lo <= hi,
    ensures
        lo <= r <= hi,
{
    rand::rng().random_range(lo..=hi)
}

/// The sum of a sequence of dice values.
pub open spec fn dice_sum(s: Seq<i8>) -> int
    decreases s.len(),
{
    if s.len() == 0 {
        0
    } else {
        dice_sum(s.drop_last()) + s.last()
    }
}

pub proof fn lemma_dice_sum_push(s: Seq<i8>, v: i8)
    ensures
        dice_sum(s.push(v)) == dice_sum(s) + v,
{
    assert(s.push(v).drop_last() =~= s);
    assert(s.push(v).last() == v);
}

pub proof fn lemma_dice_sum_bounds(s: Seq<i8>, lo: int, hi: int)
    requires
        forall|i: int| 0 <= i < s.len() ==> lo <= #[trigger] s[i] <= hi,
        0 <= lo,
    ensures
        s.len() * lo <= dice_sum(s) <= s.len() * hi,
    decreases s.len(),
{
    if s.len() == 0 {
    } else {
        lemma_dice_sum_bounds(s.drop_last(), lo, hi);
        assert((s.len() - 1) * lo + lo == s.len() * lo) by (nonlinear_arith);
        assert((s.len() - 1) * hi + hi == s.len() * hi) by (nonlinear_arith);
    }
}

/// The values of a dice pool joined with `+`.
pub open spec fn plus_join(s: Seq<i8>) -> Seq<char>
    decreases s.len(),
{
    if s.len() == 0 {
        Seq::empty()
    } else if s.len() == 1 {
        dec_int(s[0] as int)
    } else {
        plus_join(s.drop_last()) + seq!['+'] + dec_int(s.last() as int)
    }
}

/// A rendered value wrapped in `*` marks, for the die picked out of a pool.
pub open spec fn starred(s: Seq<char>) -> Seq<char> {
    seq!['*'] + s + seq!['*']
}

/// The values of a dice pool joined with `, `, every die showing the
/// picked value wrapped in `*` marks: tied dice are indistinguishable,
/// so all of them read as picked.
pub open spec fn marked_join(s: Seq<i8>, picked: int) -> Seq<char>
    decreases s.len(),
{
    if s.len() == 0 {
        Seq::empty()
    } else if s.len() == 1 {
        if s[0] as int == picked {
            starred(dec_int(s[0] as int))
        } else {
            dec_int(s[0] as int)
        }
    } else {
        let rendered_last = if s.last() as int == picked {
            starred(dec_int(s.last() as int))
        } else {
            dec_int(s.last() as int)
        };
        marked_join(s.drop_last(), picked) + ", "@ + rendered_last
    }
}

/// A rendered expression wrapped in parentheses.
pub open spec fn parenthesised(s: Seq<char>) -> Seq<char> {
    seq!['('] + s + seq![')']
}

/// A rolled dice expression: an immutable record of an outcome, together
/// with the expression shape that produced it.
pub trait DiceRoll: Sized {
    /// Structural well-formedness: every recorded die lies on its faces and
    /// the expression's value fits the machine integer carrying it.
    spec fn valid(&self) -> bool;

    /// The recorded outcome.
    spec fn spec_result(&self) -> int;

    /// The least value this expression shape can produce.
    spec fn spec_min(&self) -> int;

    /// The greatest value this expression shape can produce.
    spec fn spec_max(&self) -> int;

    /// The rendered form.
    spec fn spec_render(&self) -> Seq<char>;

    /// The rendered form as it appears inside a larger expression.
    spec fn spec_render_nested(&self) -> Seq<char>;

    /// The outcome of a well-formed expression always lies within its range,
    /// and the range fits in the dice value type.
    proof fn lemma_result_in_range(&self)
        requires
            self.valid(),
        ensures
            self.spec_min() <= self.spec_result() <= self.spec_max(),
            -128 <= self.spec_min(),
            self.spec_max() <= 127,
    ;

    fn result(&self) -> (r: i8)
        requires
            self.valid(),
        ensures
            r as int == self.spec_result(),
    ;

    fn render(&self) -> (r: String)
        requires
            self.valid(),
        ensures
            r@ == self.spec_render(),
    ;

    fn range(&self) -> (r: (i8, i8))
        requires
            self.valid(),
        ensures
            r.0 as int == self.spec_min(),
            r.1 as int == self.spec_max(),
    ;

    fn render_nested(&self) -> (r: String)
        requires
            self.valid(),
        ensures
            r@ == self.spec_render_nested(),
    ;

    fn render_result(&self) -> (r: String)
        requires
            self.valid(),
        ensures
            r@ == self.spec_render() + " = "@ + dec_int(self.spec_result()),
    ;
}

/// A constant stands for itself: its result, range and rendering are fixed.
impl DiceRoll for i8 {
    open spec fn valid(&self) -> bool {
        true
    }

    open spec fn spec_result(&self) -> int {
        *self as int
    }

    open spec fn spec_min(&self) -> int {
        *self as int
    }

    open spec fn spec_max(&self) -> int {
        *self as int
    }

    open spec fn spec_render(&self) -> Seq<char> {
        dec_int(*self as int)
    }

    open spec fn spec_render_nested(&self) -> Seq<char> {
        dec_int(*self as int)
    }

    proof fn lemma_result_in_range(&self) {
    }

    fn result(&self) -> (r: i8) {
        *self
    }

    fn render(&self) -> (r: String) {
        dec_i8(*self)
    }

    fn range(&self) -> (r: (i8, i8)) {
        (*self, *self)
    }

    fn render_nested(&self) -> (r: String) {
        dec_i8(*self)
    }

    fn render_result(&self) -> (r: String) {
        let mut s = dec_i8(*self);
        s.append(" = ");
        s.append(dec_i8(*self).as_str());
        s
    }
}

/// A single N-sided die, uniform over `1..=N`.
#[derive(Copy, Clone, Debug)]
pub struct D {
    pub sides: u8,
    pub value: i8,
}

impl D {
    pub fn roll(sides: u8) -> (d: D)
        requires
            1 <= sides <= 127,
        ensures
            d.valid(),
            d.sides == sides,
    {
        D { sides, value: sample_inclusive(1, sides as i8) }
    }
}

impl DiceRoll for D {
    open spec fn valid(&self) -> bool {
        1 <= self.sides <= 127 && 1 <= self.value <= self.sides as i8
    }

    open spec fn spec_result(&self) -> int {
        self.value as int
    }

    open spec fn spec_min(&self) -> int {
        1
    }

    open spec fn spec_max(&self) -> int {
        self.sides as int
    }

    open spec fn spec_render(&self) -> Seq<char> {
        dec_int(self.value as int)
    }

    open spec fn spec_render_nested(&self) -> Seq<char> {
        parenthesised(dec_int(self.value as int))
    }

    proof fn lemma_result_in_range(&self) {
    }

    fn result(&self) -> (r: i8) {
        self.value
    }

    fn render(&self) -> (r: String) {
        dec_i8(self.value)
    }

    fn range(&self) -> (r: (i8, i8)) {
        (1, self.sides as i8)
    }

    fn render_nested(&self) -> (r: String) {
        let mut s = String::from_str("(");
        s.append(dec_i8(self.value).as_str());
        s.append(")");
        proof {
            reveal_strlit("(");
            reveal_strlit(")");
            assert(s@ =~= self.spec_render_nested());
        }
        s
    }

    fn render_result(&self) -> (r: String) {
        let mut s = dec_i8(self.value);
        s.append(" = ");
        s.append(dec_i8(self.value).as_str());
        s
    }
}

/// The sum of two rolled sub-expressions; its range adds the sub-ranges.
#[derive(Clone, Debug)]
pub struct Add<T1: DiceRoll, T2: DiceRoll>(pub T1, pub T2);

impl<T1: DiceRoll, T2: DiceRoll> DiceRoll for Add<T1, T2> {
    open spec fn valid(&self) -> bool {
        &&& self.0.valid()
        &&& self.1.valid()
        &&& -128 <= self.0.spec_min() + self.1.spec_min()
        &&& self.0.spec_max() + self.1.spec_max() <= 127
    }

    open spec fn spec_result(&self) -> int {
        self.0.spec_result() + self.1.spec_result()
    }

    open spec fn spec_min(&self) -> int {
        self.0.spec_min() + self.1.spec_min()
    }

    open spec fn spec_max(&self) -> int {
        self.0.spec_max() + self.1.spec_max()
    }

    open spec fn spec_render(&self) -> Seq<char> {
        self.0.spec_render_nested() + " + "@ + self.1.spec_render_nested()
    }

    open spec fn spec_render_nested(&self) -> Seq<char> {
        parenthesised(self.spec_render())
    }

    proof fn lemma_result_in_range(&self) {
        self.0.lemma_result_in_range();
        self.1.lemma_result_in_range();
    }

    fn result(&self) -> (r: i8) {
        proof {
            self.0.lemma_result_in_range();
            self.1.lemma_result_in_range();
        }
        self.0.result() + self.1.result()
    }

    fn render(&self) -> (r: String) {
        let mut s = self.0.render_nested();
        s.append(" + ");
        s.append(self.1.render_nested().as_str());
        s
    }

    fn range(&self) -> (r: (i8, i8)) {
        proof {
            self.0.lemma_result_in_range();
            self.1.lemma_result_in_range();
        }
        let r1 = self.0.range();
        let r2 = self.1.range();
        (r1.0 + r2.0, r1.1 + r2.1)
    }

    fn render_nested(&self) -> (r: String) {
        let mut s = String::from_str("(");
        s.append(self.render().as_str());
        s.append(")");
        proof {
            reveal_strlit("(");
            reveal_strlit(")");
            assert(s@ =~= self.spec_render_nested());
        }
        s
    }

    fn render_result(&self) -> (r: String) {
        let mut s = self.render();
        s.append(" = ");
        s.append(dec_i8(self.result()).as_str());
        s
    }
}

/// The difference of two rolled sub-expressions; its minimum subtracts the
/// second operand's maximum, its maximum the second operand's minimum.
#[derive(Clone, Debug)]
pub struct Subtract<T1: DiceRoll, T2: DiceRoll>(pub T1, pub T2);

impl<T1: DiceRoll, T2: DiceRoll> DiceRoll for Subtract<T1, T2> {
    open spec fn valid(&self) -> bool {
        &&& self.0.valid()
        &&& self.1.valid()
        &&& -128 <= self.0.spec_min() - self.1.spec_max()
        &&& self.0.spec_max() - self.1.spec_min() <= 127
    }

    open spec fn spec_result(&self) -> int {
        self.0.spec_result() - self.1.spec_result()
    }

    open spec fn spec_min(&self) -> int {
        self.0.spec_min() - self.1.spec_max()
    }

    open spec fn spec_max(&self) -> int {
        self.0.spec_max() - self.1.spec_min()
    }

    open spec fn spec_render(&self) -> Seq<char> {
        self.0.spec_render_nested() + " - "@ + self.1.spec_render_nested()
    }

    open spec fn spec_render_nested(&self) -> Seq<char> {
        parenthesised(self.spec_render())
    }

    proof fn lemma_result_in_range(&self) {
        self.0.lemma_result_in_range();
        self.1.lemma_result_in_range();
    }

    fn result(&self) -> (r: i8) {
        proof {
            self.0.lemma_result_in_range();
            self.1.lemma_result_in_range();
        }
        self.0.result() - self.1.result()
    }

    fn render(&self) -> (r: String) {
        let mut s = self.0.render_nested();
        s.append(" - ");
        s.append(self.1.render_nested().as_str());
        s
    }

    fn range(&self) -> (r: (i8, i8)) {
        proof {
            self.0.lemma_result_in_range();
            self.1.lemma_result_in_range();
        }
        let r1 = self.0.range();
        let r2 = self.1.range();
        (r1.0 - r2.1, r1.1 - r2.0)
    }

    fn render_nested(&self) -> (r: String) {
        let mut s = String::from_str("(");
        s.append(self.render().as_str());
        s.append(")");
        proof {
            reveal_strlit("(");
            reveal_strlit(")");
            assert(s@ =~= self.spec_render_nested());
        }
        s
    }

    fn render_result(&self) -> (r: String) {
        let mut s = self.render();
        s.append(" = ");
        s.append(dec_i8(self.result()).as_str());
        s
    }
}

/// A ten-sided die rolled as `1..=10`.
pub fn d10() -> (d: D)
    ensures
        d.valid(),
        d.sides == 10,
{
    D::roll(10)
}

/// A hundred-sided die rolled as `1..=100`.
pub fn d100() -> (d: D)
    ensures
        d.valid(),
        d.sides == 100,
{
    D::roll(100)
}

pub proof fn lemma_take_sum_step(s: Seq<i8>, k: int)
    requires
        0 <= k < s.len(),
    ensures
        dice_sum(s.take(k + 1)) == dice_sum(s.take(k)) + s[k],
{
    assert(s.take(k + 1).drop_last() =~= s.take(k));
    assert(s.take(k + 1).last() == s[k]);
}

pub proof fn lemma_dice_sum_prefix(s: Seq<i8>, k: int)
    requires
        0 <= k <= s.len(),
        forall|i: int| 0 <= i < s.len() ==> 0 <= #[trigger] s[i],
    ensures
        dice_sum(s.take(k)) <= dice_sum(s),
    decreases s.len() - k,
{
    if k == s.len() {
        assert(s.take(k) =~= s);
    } else {
        lemma_take_sum_step(s, k);
        lemma_dice_sum_prefix(s, k + 1);
    }
}

/// Sums a vector of non-negative dice values.
fn sum_nonneg(v: &Vec<i8>) -> (s: i8)
    requires
        forall|i: int| 0 <= i < v@.len() ==> 0 <= #[trigger] v@[i],
        dice_sum(v@) <= 127,
    ensures
        s as int == dice_sum(v@),
{
    let mut s: i8 = 0;
    let mut idx: usize = 0;
    while idx < v.len()
        invariant
            0 <= idx <= v@.len(),
            s as int == dice_sum(v@.take(idx as int)),
            0 <= s,
            forall|i: int| 0 <= i < v@.len() ==> 0 <= #[trigger] v@[i],
            dice_sum(v@) <= 127,
        decreases v@.len() - idx,
    {
        proof {
            lemma_take_sum_step(v@, idx as int);
            lemma_dice_sum_prefix(v@, idx as int + 1);
        }
        s = s + v[idx];
        idx = idx + 1;
    }
    proof {
        assert(v@.take(v@.len() as int) =~= v@);
    }
    s
}

/// Joins rendered dice values with `+`.
fn join_plus_vec(v: &Vec<i8>) -> (r: String)
    ensures
        r@ == plus_join(v@),
{
    if v.len() == 0 {
        let r = String::new();
        proof {
            assert(r@ =~= plus_join(v@));
        }
        return r;
    }
    let mut s = dec_i8(v[0]);
    proof {
        assert(v@.take(1)[0] == v@[0]);
        assert(s@ =~= plus_join(v@.take(1)));
    }
    let mut idx: usize = 1;
    while idx < v.len()
        invariant
            1 <= idx <= v@.len(),
            v@.len() >= 1,
            s@ == plus_join(v@.take(idx as int)),
        decreases v@.len() - idx,
    {
        s.append("+");
        s.append(dec_i8(v[idx]).as_str());
        proof {
            reveal_strlit("+");
            assert(v@.take(idx as int + 1).drop_last() =~= v@.take(idx as int));
            assert(v@.take(idx as int + 1).last() == v@[idx as int]);
            assert(s@ =~= plus_join(v@.take(idx as int + 1)));
        }
        idx = idx + 1;
    }
    proof {
        assert(v@.take(v@.len() as int) =~= v@);
    }
    s
}

fn star_string(x: i8) -> (r: String)
    ensures
        r@ == starred(dec_int(x as int)),
{
    let mut s = String::from_str("*");
    s.append(dec_i8(x).as_str());
    s.append("*");
    proof {
        reveal_strlit("*");
        assert(s@ =~= starred(dec_int(x as int)));
    }
    s
}

/// Joins rendered dice values with `, `, starring every die that shows
/// the picked value.
fn join_marked_vec(v: &Vec<i8>, picked: i8) -> (r: String)
    requires
        v@.len() >= 1,
    ensures
        r@ == marked_join(v@, picked as int),
{
    let mut s = if v[0] == picked {
        star_string(v[0])
    } else {
        dec_i8(v[0])
    };
    proof {
        assert(v@.take(1)[0] == v@[0]);
        assert(s@ =~= marked_join(v@.take(1), picked as int));
    }
    let mut idx: usize = 1;
    while idx < v.len()
        invariant
            1 <= idx <= v@.len(),
            v@.len() >= 1,
            s@ == marked_join(v@.take(idx as int), picked as int),
        decreases v@.len() - idx,
    {
        s.append(", ");
        let piece = if v[idx] == picked {
            star_string(v[idx])
        } else {
            dec_i8(v[idx])
        };
        s.append(piece.as_str());
        proof {
            assert(v@.take(idx as int + 1).drop_last() =~= v@.take(idx as int));
            assert(v@.take(idx as int + 1).last() == v@[idx as int]);
            assert(s@ =~= marked_join(v@.take(idx as int + 1), picked as int));
        }
        idx = idx + 1;
    }
    proof {
        assert(v@.take(v@.len() as int) =~= v@);
    }
    s
}

/// The greatest value in a pool (zero for an empty pool).
pub open spec fn pool_greatest(s: Seq<i8>) -> int
    decreases s.len(),
{
    if s.len() == 0 {
        0
    } else if s.len() == 1 {
        s[0] as int
    } else {
        let m = pool_greatest(s.drop_last());
        if s.last() as int >= m {
            s.last() as int
        } else {
            m
        }
    }
}

/// The least value in a pool (zero for an empty pool).
pub open spec fn pool_least(s: Seq<i8>) -> int
    decreases s.len(),
{
    if s.len() == 0 {
        0
    } else if s.len() == 1 {
        s[0] as int
    } else {
        let m = pool_least(s.drop_last());
        if (s.last() as int) < m {
            s.last() as int
        } else {
            m
        }
    }
}

pub proof fn lemma_pool_greatest_bounds(s: Seq<i8>, lo: int, hi: int)
    requires
        s.len() >= 1,
        forall|i: int| 0 <= i < s.len() ==> lo <= #[trigger] s[i] as int <= hi,
    ensures
        lo <= pool_greatest(s) <= hi,
        lo <= pool_least(s) <= hi,
    decreases s.len(),
{
    if s.len() > 1 {
        lemma_pool_greatest_bounds(s.drop_last(), lo, hi);
    }
}

/// The greatest value a pool shows.
fn vec_greatest(v: &Vec<i8>) -> (m: i8)
    requires
        v@.len() >= 1,
    ensures
        m as int == pool_greatest(v@),
{
    let mut best: i8 = v[0];
    proof {
        assert(v@.take(1)[0] == v@[0]);
    }
    let mut idx: usize = 1;
    while idx < v.len()
        invariant
            1 <= idx <= v@.len(),
            v@.len() >= 1,
            best as int == pool_greatest(v@.take(idx as int)),
        decreases v@.len() - idx,
    {
        proof {
            assert(v@.take(idx as int + 1).drop_last() =~= v@.take(idx as int));
            assert(v@.take(idx as int + 1).last() == v@[idx as int]);
        }
        if v[idx] >= best {
            best = v[idx];
        }
        idx = idx + 1;
    }
    proof {
        assert(v@.take(v@.len() as int) =~= v@);
    }
    best
}

/// The least value a pool shows.
fn vec_least(v: &Vec<i8>) -> (m: i8)
    requires
        v@.len() >= 1,
    ensures
        m as int == pool_least(v@),
{
    let mut best: i8 = v[0];
    proof {
        assert(v@.take(1)[0] == v@[0]);
    }
    let mut idx: usize = 1;
    while idx < v.len()
        invariant
            1 <= idx <= v@.len(),
            v@.len() >= 1,
            best as int == pool_least(v@.take(idx as int)),
        decreases v@.len() - idx,
    {
        proof {
            assert(v@.take(idx as int + 1).drop_last() =~= v@.take(idx as int));
            assert(v@.take(idx as int + 1).last() == v@[idx as int]);
        }
        if v[idx] < best {
            best = v[idx];
        }
        idx = idx + 1;
    }
    proof {
        assert(v@.take(v@.len() as int) =~= v@);
    }
    best
}

/// A homogeneous pool of rolled dice, seen as the plain values it holds.
pub trait AsPool: Sized {
    /// Structural well-formedness of the pool.
    spec fn pool_valid(&self) -> bool;

    /// The plain value each die of the pool stands for.
    spec fn spec_pool(&self) -> Seq<i8>;

    /// The least value one die of this pool's kind can show.
    spec fn spec_under_min(&self) -> int;

    /// The greatest value one die of this pool's kind can show.
    spec fn spec_under_max(&self) -> int;

    /// Every die of a well-formed pool lies on the range of one
    /// representative die of its kind.
    proof fn lemma_pool_in_range(&self)
        requires
            self.pool_valid(),
        ensures
            forall|i: int|
                0 <= i < self.spec_pool().len() ==> self.spec_under_min() <= #[trigger] self.spec_pool()[i] as int
                    <= self.spec_under_max(),
            -128 <= self.spec_under_min() <= self.spec_under_max() <= 127,
    ;

    fn as_pool(&self) -> (p: Vec<i8>)
        requires
            self.pool_valid(),
        ensures
            p@ == self.spec_pool(),
    ;

    /// The inclusive range of one representative die of the pool's kind.
    fn underlying_range(&self) -> (r: (i8, i8))
        requires
            self.pool_valid(),
        ensures
            r.0 as int == self.spec_under_min(),
            r.1 as int == self.spec_under_max(),
    ;
}

/// A pool of N dice with the same number of sides, summed: `3d6` is
/// `Many::roll(3, 6)`.
#[derive(Clone, Debug)]
pub struct Many {
    pub sides: u8,
    pub dice: Vec<i8>,
}

impl Many {
    pub fn roll(n: usize, sides: u8) -> (m: Many)
        requires
            1 <= sides <= 127,
            n * sides <= 127,
        ensures
            m.valid(),
            m.pool_valid(),
            m.sides == sides,
            m.dice@.len() == n,
    {
        let mut dice: Vec<i8> = Vec::new();
        let mut i: usize = 0;
        while i < n
            invariant
                0 <= i <= n,
                1 <= sides <= 127,
                n * sides <= 127,
                dice@.len() == i,
                forall|j: int| 0 <= j < dice@.len() ==> 1 <= #[trigger] dice@[j] <= sides as i8,
            decreases n - i,
        {
            let v = sample_inclusive(1, sides as i8);
            dice.push(v);
            i = i + 1;
        }
        proof {
            assert(dice@.len() * sides as int <= n * sides as int) by (nonlinear_arith)
                requires
                    dice@.len() <= n,
                    sides >= 1,
            ;
        }
        Many { sides, dice }
    }
}

impl DiceRoll for Many {
    open spec fn valid(&self) -> bool {
        &&& 1 <= self.sides <= 127
        &&& forall|i: int| 0 <= i < self.dice@.len() ==> 1 <= #[trigger] self.dice@[i] <= self.sides as i8
        &&& self.dice@.len() * self.sides as int <= 127
    }

    open spec fn spec_result(&self) -> int {
        dice_sum(self.dice@)
    }

    open spec fn spec_min(&self) -> int {
        self.dice@.len() as int
    }

    open spec fn spec_max(&self) -> int {
        self.dice@.len() * self.sides as int
    }

    open spec fn spec_render(&self) -> Seq<char> {
        if self.dice@.len() == 0 {
            "0"@
        } else {
            plus_join(self.dice@)
        }
    }

    open spec fn spec_render_nested(&self) -> Seq<char> {
        if self.dice@.len() == 0 {
            "0"@
        } else if self.dice@.len() == 1 {
            dec_int(self.dice@[0] as int)
        } else {
            parenthesised(plus_join(self.dice@))
        }
    }

    proof fn lemma_result_in_range(&self) {
        lemma_dice_sum_bounds(self.dice@, 1, self.sides as int);
        assert(self.dice@.len() * 1 == self.dice@.len() as int) by (nonlinear_arith);
    }

    fn result(&self) -> (r: i8) {
        proof {
            self.lemma_result_in_range();
        }
        sum_nonneg(&self.dice)
    }

    fn render(&self) -> (r: String) {
        if self.dice.len() == 0 {
            String::from_str("0")
        } else {
            join_plus_vec(&self.dice)
        }
    }

    fn range(&self) -> (r: (i8, i8)) {
        proof {
            self.lemma_result_in_range();
        }
        let n = self.dice.len();
        (n as i8, (n * (self.sides as usize)) as i8)
    }

    fn render_nested(&self) -> (r: String) {
        if self.dice.len() == 0 {
            String::from_str("0")
        } else if self.dice.len() == 1 {
            dec_i8(self.dice[0])
        } else {
            let mut s = String::from_str("(");
            s.append(join_plus_vec(&self.dice).as_str());
            s.append(")");
            proof {
                reveal_strlit("(");
                reveal_strlit(")");
                assert(s@ =~= self.spec_render_nested());
            }
            s
        }
    }

    fn render_result(&self) -> (r: String) {
        let mut s = self.render();
        s.append(" = ");
        s.append(dec_i8(self.result()).as_str());
        s
    }
}

impl AsPool for Many {
    open spec fn pool_valid(&self) -> bool {
        self.valid()
    }

    open spec fn spec_pool(&self) -> Seq<i8> {
        self.dice@
    }

    open spec fn spec_under_min(&self) -> int {
        1
    }

    open spec fn spec_under_max(&self) -> int {
        self.sides as int
    }

    proof fn lemma_pool_in_range(&self) {
    }

    fn as_pool(&self) -> (p: Vec<i8>) {
        let mut p: Vec<i8> = Vec::new();
        let mut i: usize = 0;
        while i < self.dice.len()
            invariant
                0 <= i <= self.dice@.len(),
                p@ == self.dice@.take(i as int),
            decreases self.dice@.len() - i,
        {
            p.push(self.dice[i]);
            proof {
                assert(p@ =~= self.dice@.take(i as int + 1));
            }
            i = i + 1;
        }
        proof {
            assert(self.dice@.take(self.dice@.len() as int) =~= self.dice@);
        }
        p
    }

    fn underlying_range(&self) -> (r: (i8, i8)) {
        (1, self.sides as i8)
    }
}

/// The plain value a tens die and the units die of a hundred-pool combine
/// to: an all-zero combination reads as one hundred, never zero.
pub open spec fn hundred_value(tens: i8, units: i8) -> i8 {
    if tens == 0 && units == 0 {
        100
    } else {
        (tens + units) as i8
    }
}

/// A pool of hundred-sided dice rolled as tens dice (00 to 90) sharing one
/// units die (0 to 9); a tens die of 00 with a units die of 0 reads as 100.
#[derive(Clone, Debug)]
pub struct D100Pool {
    pub d100s: Vec<i8>,
    pub d10: i8,
}

impl D100Pool {
    pub fn roll(n: usize) -> (p: D100Pool)
        ensures
            p.pool_valid(),
            p.d100s@.len() == n,
    {
        let mut d100s: Vec<i8> = Vec::new();
        let mut i: usize = 0;
        while i < n
            invariant
                0 <= i <= n,
                d100s@.len() == i,
                forall|j: int|
                    0 <= j < d100s@.len() ==> 0 <= #[trigger] d100s@[j] <= 90 && d100s@[j] % 10 == 0,
            decreases n - i,
        {
            let t = sample_inclusive(0, 9);
            d100s.push(t * 10);
            i = i + 1;
        }
        D100Pool { d100s, d10: sample_inclusive(0, 9) }
    }
}

impl AsPool for D100Pool {
    open spec fn pool_valid(&self) -> bool {
        &&& forall|i: int|
            0 <= i < self.d100s@.len() ==> 0 <= #[trigger] self.d100s@[i] <= 90 && self.d100s@[i] % 10
                == 0
        &&& 0 <= self.d10 <= 9
    }

    open spec fn spec_pool(&self) -> Seq<i8> {
        Seq::new(self.d100s@.len(), |i: int| hundred_value(self.d100s@[i], self.d10))
    }

    open spec fn spec_under_min(&self) -> int {
        1
    }

    open spec fn spec_under_max(&self) -> int {
        100
    }

    proof fn lemma_pool_in_range(&self) {
    }

    fn as_pool(&self) -> (p: Vec<i8>) {
        let mut p: Vec<i8> = Vec::new();
        let mut i: usize = 0;
        while i < self.d100s.len()
            invariant
                0 <= i <= self.d100s@.len(),
                self.pool_valid(),
                p@.len() == i,
                forall|j: int|
                    0 <= j < p@.len() ==> #[trigger] p@[j] == hundred_value(
                        self.d100s@[j],
                        self.d10,
                    ),
            decreases self.d100s@.len() - i,
        {
            let t = self.d100s[i];
            if t == 0 && self.d10 == 0 {
                p.push(100);
            } else {
                p.push(t + self.d10);
            }
            i = i + 1;
        }
        proof {
            assert(p@ =~= self.spec_pool());
        }
        p
    }

    fn underlying_range(&self) -> (r: (i8, i8)) {
        (1, 100)
    }
}

/// The hundred-pool special case: a tens die of 00 with a units die of 0
/// reads as one hundred, never zero, and every die of the pool reads
/// between one and one hundred.
pub proof fn lemma_hundred_pool_special_case(p: D100Pool)
    requires
        p.pool_valid(),
    ensures
        forall|i: int|
            0 <= i < p.spec_pool().len() ==> (p.d100s@[i] == 0 && p.d10 == 0 ==> #[trigger] p.spec_pool()[i]
                == 100),
        forall|i: int| 0 <= i < p.spec_pool().len() ==> 1 <= #[trigger] p.spec_pool()[i] <= 100,
        forall|i: int| 0 <= i < p.spec_pool().len() ==> #[trigger] p.spec_pool()[i] != 0,
{
}

/// A roll whose outcome was fixed from outside (a picked result), shown and
/// ranged as the underlying dice it replaced.
#[derive(Clone, Debug)]
pub struct PickedRoll<T: DiceRoll>(pub i8, pub T);

impl<T: DiceRoll> DiceRoll for PickedRoll<T> {
    open spec fn valid(&self) -> bool {
        &&& self.1.valid()
        &&& self.1.spec_min() <= self.0 as int <= self.1.spec_max()
    }

    open spec fn spec_result(&self) -> int {
        self.0 as int
    }

    open spec fn spec_min(&self) -> int {
        self.1.spec_min()
    }

    open spec fn spec_max(&self) -> int {
        self.1.spec_max()
    }

    open spec fn spec_render(&self) -> Seq<char> {
        self.1.spec_render()
    }

    open spec fn spec_render_nested(&self) -> Seq<char> {
        self.1.spec_render_nested()
    }

    proof fn lemma_result_in_range(&self) {
        self.1.lemma_result_in_range();
    }

    fn result(&self) -> (r: i8) {
        self.0
    }

    fn render(&self) -> (r: String) {
        self.1.render()
    }

    fn range(&self) -> (r: (i8, i8)) {
        self.1.range()
    }

    fn render_nested(&self) -> (r: String) {
        self.1.render_nested()
    }

    fn render_result(&self) -> (r: String) {
        let mut s = self.1.render();
        s.append(" = ");
        s.append(dec_i8(self.0).as_str());
        s
    }
}

/// Rolling with advantage: the greatest die of a pool; its range is that of
/// one representative die, not of the pool's sum. The rendering marks
/// every die tied at the picked value.
#[derive(Clone, Debug)]
pub struct PickHighest<T: AsPool>(pub T);

impl<T: AsPool> DiceRoll for PickHighest<T> {
    open spec fn valid(&self) -> bool {
        &&& self.0.pool_valid()
        &&& self.0.spec_pool().len() >= 1
    }

    open spec fn spec_result(&self) -> int {
        pool_greatest(self.0.spec_pool())
    }

    open spec fn spec_min(&self) -> int {
        self.0.spec_under_min()
    }

    open spec fn spec_max(&self) -> int {
        self.0.spec_under_max()
    }

    open spec fn spec_render(&self) -> Seq<char> {
        "max("@ + marked_join(self.0.spec_pool(), pool_greatest(self.0.spec_pool())) + ")"@
    }

    open spec fn spec_render_nested(&self) -> Seq<char> {
        parenthesised(self.spec_render())
    }

    proof fn lemma_result_in_range(&self) {
        self.0.lemma_pool_in_range();
        lemma_pool_greatest_bounds(
            self.0.spec_pool(),
            self.0.spec_under_min(),
            self.0.spec_under_max(),
        );
    }

    fn result(&self) -> (r: i8) {
        let pool = self.0.as_pool();
        vec_greatest(&pool)
    }

    fn render(&self) -> (r: String) {
        let pool = self.0.as_pool();
        let picked = vec_greatest(&pool);
        let mut s = String::from_str("max(");
        s.append(join_marked_vec(&pool, picked).as_str());
        s.append(")");
        s
    }

    fn range(&self) -> (r: (i8, i8)) {
        self.0.underlying_range()
    }

    fn render_nested(&self) -> (r: String) {
        let mut s = String::from_str("(");
        s.append(self.render().as_str());
        s.append(")");
        proof {
            reveal_strlit("(");
            reveal_strlit(")");
            assert(s@ =~= self.spec_render_nested());
        }
        s
    }

    fn render_result(&self) -> (r: String) {
        let mut s = self.render();
        s.append(" = ");
        s.append(dec_i8(self.result()).as_str());
        s
    }
}

/// Rolling with disadvantage: the least die of a pool; its range is that of
/// one representative die, not of the pool's sum. The rendering marks
/// every die tied at the picked value.
#[derive(Clone, Debug)]
pub struct PickLowest<T: AsPool>(pub T);

impl<T: AsPool> DiceRoll for PickLowest<T> {
    open spec fn valid(&self) -> bool {
        &&& self.0.pool_valid()
        &&& self.0.spec_pool().len() >= 1
    }

    open spec fn spec_result(&self) -> int {
        pool_least(self.0.spec_pool())
    }

    open spec fn spec_min(&self) -> int {
        self.0.spec_under_min()
    }

    open spec fn spec_max(&self) -> int {
        self.0.spec_under_max()
    }

    open spec fn spec_render(&self) -> Seq<char> {
        "min("@ + marked_join(self.0.spec_pool(), pool_least(self.0.spec_pool())) + ")"@
    }

    open spec fn spec_render_nested(&self) -> Seq<char> {
        parenthesised(self.spec_render())
    }

    proof fn lemma_result_in_range(&self) {
        self.0.lemma_pool_in_range();
        lemma_pool_greatest_bounds(
            self.0.spec_pool(),
            self.0.spec_under_min(),
            self.0.spec_under_max(),
        );
    }

    fn result(&self) -> (r: i8) {
        let pool = self.0.as_pool();
        vec_least(&pool)
    }

    fn render(&self) -> (r: String) {
        let pool = self.0.as_pool();
        let picked = vec_least(&pool);
        let mut s = String::from_str("min(");
        s.append(join_marked_vec(&pool, picked).as_str());
        s.append(")");
        s
    }

    fn range(&self) -> (r: (i8, i8)) {
        self.0.underlying_range()
    }

    fn render_nested(&self) -> (r: String) {
        let mut s = String::from_str("(");
        s.append(self.render().as_str());
        s.append(")");
        proof {
            reveal_strlit("(");
            reveal_strlit(")");
            assert(s@ =~= self.spec_render_nested());
        }
        s
    }

    fn render_result(&self) -> (r: String) {
        let mut s = self.render();
        s.append(" = ");
        s.append(dec_i8(self.result()).as_str());
        s
    }
}

/// The single-die values that prolong a magic-dice run.
pub open spec fn is_prime_digit(v: int) -> bool {
    v == 2 || v == 3 || v == 5 || v == 7
}

fn is_prime8(v: i8) -> (r: bool)
    ensures
        r == is_prime_digit(v as int),
{
    v == 2 || v == 3 || v == 5 || v == 7
}

/// One half of a magic-dice roll: ten-sided draws where every draw before
/// the last was prime with a running total still below one hundred, and the
/// last draw is non-prime or brought the total to one hundred or more.
pub open spec fn magic_run_ok(run: Seq<i8>, base: int) -> bool {
    &&& run.len() >= 1
    &&& forall|i: int| 0 <= i < run.len() ==> 1 <= #[trigger] run[i] <= 10
    &&& forall|i: int|
        0 <= i < run.len() - 1 ==> is_prime_digit(#[trigger] run[i] as int) && base + dice_sum(
            run.take(i + 1),
        ) < 100
    &&& (!is_prime_digit(run.last() as int) || base + dice_sum(run) >= 100)
}

/// Draws one half of a magic-dice roll on top of a prior total: a ten-sided
/// die, drawn again as long as the draw is prime and the total stays below
/// one hundred (a total at or past one hundred already means death, so the
/// run stops there and the sum stays within the dice value type).
pub(crate) fn roll_magic_dice(base: i8) -> (run: Vec<i8>)
    requires
        0 <= base <= 109,
    ensures
        magic_run_ok(run@, base as int),
        base + dice_sum(run@) <= 119,
        run@.len() >= 2 ==> base + dice_sum(run@) <= 109,
        1 <= dice_sum(run@),
        run@.len() == 1 ==> dice_sum(run@) <= 10,
{
    let mut run: Vec<i8> = Vec::new();
    let mut total: i8 = base;
    loop
        invariant_except_break
            run@.len() >= 1 ==> total < 100,
            forall|i: int|
                0 <= i < run@.len() ==> is_prime_digit(#[trigger] run@[i] as int) && base
                    + dice_sum(run@.take(i + 1)) < 100,
        invariant
            0 <= base <= 109,
            total as int == base + dice_sum(run@),
            base <= total <= 119,
            forall|i: int| 0 <= i < run@.len() ==> 1 <= #[trigger] run@[i] <= 10,
        ensures
            magic_run_ok(run@, base as int),
            total as int == base + dice_sum(run@),
            total <= 119,
            run@.len() >= 2 ==> total <= 109,
            run@.len() == 1 ==> dice_sum(run@) <= 10,
            1 <= dice_sum(run@),
        decreases 200 - total,
    {
        let v = sample_inclusive(1, 10);
        let ghost prev = run@;
        run.push(v);
        total = total + v;
        proof {
            lemma_dice_sum_push(prev, v);
            assert forall|i: int| 0 <= i < prev.len() implies is_prime_digit(
                #[trigger] run@[i] as int,
            ) && base + dice_sum(run@.take(i + 1)) < 100 by {
                assert(run@.take(i + 1) =~= prev.take(i + 1));
                assert(run@[i] == prev[i]);
            }
            assert(run@.take(run@.len() as int) =~= run@);
            assert(run@.last() == v);
        }
        if !(is_prime8(v) && total < 100) {
            proof {
                assert(magic_run_ok(run@, base as int));
                if prev.len() >= 1 {
                    assert(base + dice_sum(run@.take(prev.len() as int)) < 100);
                    assert(run@.take(prev.len() as int) =~= prev);
                }
                if run@.len() == 1 {
                    assert(dice_sum(run@) == dice_sum(run@.drop_last()) + run@.last());
                    assert(run@.drop_last() =~= Seq::<i8>::empty());
                }
            }
            break;
        }
    }
    run
}

/// A self-terminating recursive roll: two independent runs of ten-sided
/// draws, each prolonged only by prime draws, summed together. Its range is
/// one to one hundred by convention; a total at or above one hundred is a
/// terminal outcome handled at the call site, not an error.
#[derive(Clone, Debug)]
pub struct MagicDice {
    pub first: Vec<i8>,
    pub second: Vec<i8>,
}

impl MagicDice {
    pub open spec fn valid(&self) -> bool {
        &&& magic_run_ok(self.first@, 0)
        &&& 1 <= dice_sum(self.first@) <= 109
        &&& magic_run_ok(self.second@, dice_sum(self.first@))
        &&& dice_sum(self.first@) + dice_sum(self.second@) <= 119
    }

    pub open spec fn spec_result(&self) -> int {
        dice_sum(self.first@) + dice_sum(self.second@)
    }

    pub open spec fn spec_render(&self) -> Seq<char> {
        plus_join(self.first@ + self.second@)
    }

    pub fn roll() -> (m: MagicDice)
        ensures
            m.valid(),
    {
        let first = roll_magic_dice(0);
        let base = sum_nonneg(&first);
        let second = roll_magic_dice(base);
        MagicDice { first, second }
    }

    pub fn result(&self) -> (r: i8)
        requires
            self.valid(),
        ensures
            r as int == self.spec_result(),
    {
        proof {
            lemma_dice_sum_bounds(self.first@, 1, 10);
            lemma_dice_sum_bounds(self.second@, 1, 10);
        }
        sum_nonneg(&self.first) + sum_nonneg(&self.second)
    }

    pub fn render(&self) -> (r: String)
        requires
            self.valid(),
        ensures
            r@ == self.spec_render(),
    {
        let mut all: Vec<i8> = Vec::new();
        let mut i: usize = 0;
        while i < self.first.len()
            invariant
                0 <= i <= self.first@.len(),
                all@ == self.first@.take(i as int),
            decreases self.first@.len() - i,
        {
            all.push(self.first[i]);
            proof {
                assert(all@ =~= self.first@.take(i as int + 1));
            }
            i = i + 1;
        }
        proof {
            assert(self.first@.take(self.first@.len() as int) =~= self.first@);
        }
        let mut j: usize = 0;
        while j < self.second.len()
            invariant
                0 <= j <= self.second@.len(),
                all@ == self.first@ + self.second@.take(j as int),
            decreases self.second@.len() - j,
        {
            all.push(self.second[j]);
            proof {
                assert(all@ =~= self.first@ + self.second@.take(j as int + 1));
            }
            j = j + 1;
        }
        proof {
            assert(self.first@ + self.second@.take(self.second@.len() as int) =~= self.first@
                + self.second@);
        }
        join_plus_vec(&all)
    }

    /// The conventional range of a magic-dice roll. The recorded draws can
    /// in fact total past one hundred; such a result reads as death at the
    /// call site, so one hundred stands as the top of the range shown.
    pub fn range(&self) -> (r: (i8, i8))
        ensures
            r == (1i8, 100i8),
    {
        (1, 100)
    }

    pub fn render_result(&self) -> (r: String)
        requires
            self.valid(),
        ensures
            r@ == self.spec_render() + " = "@ + dec_int(self.spec_result()),
    {
        let mut s = self.render();
        s.append(" = ");
        s.append(dec_i8(self.result()).as_str());
        s
    }
}

/// Magic-dice draws form unbroken prime runs: within each half every draw
/// before the last is prime, a non-prime draw is always the last of its
/// half, and a total at or above one hundred takes at least ten draws. The
/// total of a well-formed roll lies between two and one hundred nineteen,
/// so any result at or below one hundred lies within the conventional
/// range; totals past one hundred stand outside it and read as death.
pub proof fn lemma_magic_prime_runs(m: MagicDice)
    requires
        m.valid(),
    ensures
        forall|i: int|
            0 <= i < m.first@.len() - 1 ==> is_prime_digit(#[trigger] m.first@[i] as int),
        forall|i: int|
            0 <= i < m.second@.len() - 1 ==> is_prime_digit(#[trigger] m.second@[i] as int),
        forall|i: int|
            0 <= i < m.first@.len() && !is_prime_digit(#[trigger] m.first@[i] as int) ==> i
                == m.first@.len() - 1,
        forall|i: int|
            0 <= i < m.second@.len() && !is_prime_digit(#[trigger] m.second@[i] as int) ==> i
                == m.second@.len() - 1,
        2 <= m.spec_result() <= 119,
        m.spec_result() <= 100 ==> 1 <= m.spec_result() <= 100,
        m.spec_result() >= 100 ==> m.first@.len() + m.second@.len() >= 10,
{
    lemma_dice_sum_bounds(m.first@, 1, 10);
    lemma_dice_sum_bounds(m.second@, 1, 10);
    assert(m.first@.len() * 1 == m.first@.len() as int) by (nonlinear_arith);
    assert(m.second@.len() * 1 == m.second@.len() as int) by (nonlinear_arith);
    if m.spec_result() >= 100 {
        assert(m.first@.len() * 10 + m.second@.len() * 10 >= 100);
        assert((m.first@.len() + m.second@.len()) * 10 == m.first@.len() * 10 + m.second@.len()
            * 10) by (nonlinear_arith);
    }
}

} // verus!
