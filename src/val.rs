use vstd::prelude::*;

verus! {

/// A length in flexbox layout options.
#[derive(Clone, Copy, Debug, PartialEq, Eq, Structural)]
pub enum Val {
    /// No value defined.
    Undefined,
    /// The value is determined automatically by the layout solver.
    Auto,
    /// A length in logical pixels.
    Px(i32),
    /// A length in percent of a reference size (not divided by 100).
    Percent(i32),
}

/// Why an operation on [`Val`]s failed.
#[derive(Clone, Copy, Debug, PartialEq, Eq, Structural)]
pub enum ValArithmeticError {
    /// The two operands are of different variants.
    NonIdenticalVariants,
    /// The operand has no numeric value (it is `Undefined` or `Auto`).
    NonEvaluateable,
}

impl ValArithmeticError {
    /// A sentence that describes the error.
    pub fn message(&self) -> (r: &'static str)
        ensures
            r@ == match *self {
                ValArithmeticError::NonIdenticalVariants => "the variants of the Vals don't match"@,
                ValArithmeticError::NonEvaluateable => "the given variant of Val is not evaluateable (non-numeric)"@,
            },
    {
        match self {
            ValArithmeticError::NonIdenticalVariants => "the variants of the Vals don't match",
            ValArithmeticError::NonEvaluateable => "the given variant of Val is not evaluateable (non-numeric)",
        }
    }
}

/// Whether `v` carries a number (`Px` or `Percent`).
pub open spec fn is_numeric(v: Val) -> bool {
    v is Px || v is Percent
}

/// Whether `a` and `b` are of the same variant.
pub open spec fn same_kind(a: Val, b: Val) -> bool {
    ||| a is Undefined && b is Undefined
    ||| a is Auto && b is Auto
    ||| a is Px && b is Px
    ||| a is Percent && b is Percent
}

/// The number carried by `v`; zero where it carries none.
pub open spec fn amount(v: Val) -> int {
    match v {
        Val::Px(x) => x as int,
        Val::Percent(p) => p as int,
        _ => 0,
    }
}

/// `v` with its number replaced by `n`; a non-numeric `v` stays as it is.
pub open spec fn with_amount(v: Val, n: int) -> Val {
    match v {
        Val::Px(_) => Val::Px(n as i32),
        Val::Percent(_) => Val::Percent(n as i32),
        _ => v,
    }
}

/// Whether `n` can be held in an `i32`.
pub open spec fn fits_i32(n: int) -> bool {
    i32::MIN <= n <= i32::MAX
}

/// The outcome of adding `b` to `a` within one variant.
pub open spec fn sum_of(a: Val, b: Val) -> Result<Val, ValArithmeticError> {
    if same_kind(a, b) {
        Ok(with_amount(a, amount(a) + amount(b)))
    } else {
        Err(ValArithmeticError::NonIdenticalVariants)
    }
}

/// The outcome of subtracting `b` from `a` within one variant.
pub open spec fn difference_of(a: Val, b: Val) -> Result<Val, ValArithmeticError> {
    if same_kind(a, b) {
        Ok(with_amount(a, amount(a) - amount(b)))
    } else {
        Err(ValArithmeticError::NonIdenticalVariants)
    }
}

/// `n / d` rounded toward zero, as integer division does.
pub open spec fn div_toward_zero(n: int, d: int) -> int {
    if n >= 0 {
        n / d
    } else {
        -((-n) / d)
    }
}

/// The pixel length that `v` stands for against the reference size `size`.
pub open spec fn resolved(v: Val, size: int) -> int {
    match v {
        Val::Px(x) => x as int,
        Val::Percent(p) => div_toward_zero(size * p, 100),
        _ => 0,
    }
}

/// The outcome of evaluating `v` against the reference size `size`.
pub open spec fn evaluation_of(v: Val, size: int) -> Result<i64, ValArithmeticError> {
    if is_numeric(v) {
        Ok(resolved(v, size) as i64)
    } else {
        Err(ValArithmeticError::NonEvaluateable)
    }
}

/// The outcome of evaluating `a` and `b` against `size` and combining the
/// two pixel lengths with `combine`.
pub open spec fn evaluated_with(
    a: Val,
    b: Val,
    size: int,
    combine: spec_fn(int, int) -> int,
) -> Result<i64, ValArithmeticError> {
    if is_numeric(a) && is_numeric(b) {
        Ok(combine(resolved(a, size), resolved(b, size)) as i64)
    } else {
        Err(ValArithmeticError::NonEvaluateable)
    }
}

/// The outcome of adding the pixel lengths of `a` and `b` against `size`.
pub open spec fn evaluated_sum(a: Val, b: Val, size: int) -> Result<i64, ValArithmeticError> {
    evaluated_with(a, b, size, |x: int, y: int| x + y)
}

/// The outcome of subtracting the pixel length of `b` from that of `a` against `size`.
pub open spec fn evaluated_difference(a: Val, b: Val, size: int) -> Result<i64, ValArithmeticError> {
    evaluated_with(a, b, size, |x: int, y: int| x - y)
}

/// The product of two `i32`s lies within plus or minus 2^62.
proof fn lemma_product_bounds(a: i32, b: i32)
    ensures
        -0x4000_0000_0000_0000 <= a as int * b as int <= 0x4000_0000_0000_0000,
{
    assert(-0x4000_0000_0000_0000 <= a as int * b as int <= 0x4000_0000_0000_0000)
        by (nonlinear_arith)
        requires
            i32::MIN <= a <= i32::MAX,
            i32::MIN <= b <= i32::MAX,
    ;
}

/// Every resolved length lies within plus or minus 2^61, so two of them add
/// or subtract without leaving `i64`.
proof fn lemma_resolved_bounds(v: Val, size: i32)
    ensures
        -0x2000_0000_0000_0000 <= resolved(v, size as int) <= 0x2000_0000_0000_0000,
{
    if let Val::Percent(p) = v {
        lemma_product_bounds(size, p);
    }
}

impl Default for Val {
    fn default() -> (r: Val)
        ensures
            r == Val::Undefined,
    {
        Val::Undefined
    }
}

impl From<i32> for Val {
    fn from(value: i32) -> (r: Val)
        ensures
            r == Val::Px(value),
    {
        Val::Px(value)
    }
}

impl vstd::std_specs::convert::FromSpecImpl<i32> for Val {
    open spec fn obeys_from_spec() -> bool {
        true
    }

    open spec fn from_spec(value: i32) -> Val {
        Val::Px(value)
    }
}

impl Val {
    /// Multiplies the number of `self` by `rhs`; `Undefined` and `Auto` come
    /// back unchanged.
    pub fn mul(self, rhs: i32) -> (r: Val)
        requires
            is_numeric(self) ==> fits_i32(amount(self) * rhs),
        ensures
            r == with_amount(self, amount(self) * rhs),
    {
        match self {
            Val::Undefined => Val::Undefined,
            Val::Auto => Val::Auto,
            Val::Px(value) => Val::Px(value * rhs),
            Val::Percent(value) => Val::Percent(value * rhs),
        }
    }

    /// Multiplies the number of `self` by `rhs` in place (see [`Val::mul`]).
    pub fn mul_assign(&mut self, rhs: i32)
        requires
            is_numeric(*old(self)) ==> fits_i32(amount(*old(self)) * rhs),
        ensures
            *final(self) == with_amount(*old(self), amount(*old(self)) * rhs),
    {
        *self = self.mul(rhs);
    }

    /// Divides the number of `self` by `rhs`, rounding toward zero;
    /// `Undefined` and `Auto` come back unchanged.
    pub fn div(self, rhs: i32) -> (r: Val)
        requires
            rhs != 0,
            is_numeric(self) ==> !(amount(self) == i32::MIN && rhs == -1),
        ensures
            r == with_amount(self, div_toward_zero(amount(self), rhs as int)),
    {
        match self {
            Val::Undefined => Val::Undefined,
            Val::Auto => Val::Auto,
            Val::Px(value) => Val::Px(value / rhs),
            Val::Percent(value) => Val::Percent(value / rhs),
        }
    }

    /// Divides the number of `self` by `rhs` in place (see [`Val::div`]).
    pub fn div_assign(&mut self, rhs: i32)
        requires
            rhs != 0,
            is_numeric(*old(self)) ==> !(amount(*old(self)) == i32::MIN && rhs == -1),
        ensures
            *final(self) == with_amount(*old(self), div_toward_zero(amount(*old(self)), rhs as int)),
    {
        *self = self.div(rhs);
    }

    /// Adds `rhs` to `self` when both are of the same variant; `Undefined` and
    /// `Auto` come back unchanged.
    pub fn try_add(&self, rhs: Val) -> (r: Result<Val, ValArithmeticError>)
        requires
            same_kind(*self, rhs) ==> fits_i32(amount(*self) + amount(rhs)),
        ensures
            r == sum_of(*self, rhs),
    {
        match (*self, rhs) {
            (Val::Undefined, Val::Undefined) | (Val::Auto, Val::Auto) => Ok(*self),
            (Val::Px(value), Val::Px(rhs_value)) => Ok(Val::Px(value + rhs_value)),
            (Val::Percent(value), Val::Percent(rhs_value)) => Ok(Val::Percent(value + rhs_value)),
            _ => Err(ValArithmeticError::NonIdenticalVariants),
        }
    }

    /// Adds `rhs` to `self` in place (see [`Val::try_add`]); on failure `self`
    /// is left unchanged.
    pub fn try_add_assign(&mut self, rhs: Val) -> (r: Result<(), ValArithmeticError>)
        requires
            same_kind(*old(self), rhs) ==> fits_i32(amount(*old(self)) + amount(rhs)),
        ensures
            match sum_of(*old(self), rhs) {
                Ok(v) => r is Ok && *final(self) == v,
                Err(e) => r == Err::<(), ValArithmeticError>(e) && *final(self) == *old(self),
            },
    {
        *self = self.try_add(rhs)?;
        Ok(())
    }

    /// Subtracts `rhs` from `self` when both are of the same variant;
    /// `Undefined` and `Auto` come back unchanged.
    pub fn try_sub(&self, rhs: Val) -> (r: Result<Val, ValArithmeticError>)
        requires
            same_kind(*self, rhs) ==> fits_i32(amount(*self) - amount(rhs)),
        ensures
            r == difference_of(*self, rhs),
    {
        match (*self, rhs) {
            (Val::Undefined, Val::Undefined) | (Val::Auto, Val::Auto) => Ok(*self),
            (Val::Px(value), Val::Px(rhs_value)) => Ok(Val::Px(value - rhs_value)),
            (Val::Percent(value), Val::Percent(rhs_value)) => Ok(Val::Percent(value - rhs_value)),
            _ => Err(ValArithmeticError::NonIdenticalVariants),
        }
    }

    /// Subtracts `rhs` from `self` in place (see [`Val::try_sub`]); on failure
    /// `self` is left unchanged.
    pub fn try_sub_assign(&mut self, rhs: Val) -> (r: Result<(), ValArithmeticError>)
        requires
            same_kind(*old(self), rhs) ==> fits_i32(amount(*old(self)) - amount(rhs)),
        ensures
            match difference_of(*old(self), rhs) {
                Ok(v) => r is Ok && *final(self) == v,
                Err(e) => r == Err::<(), ValArithmeticError>(e) && *final(self) == *old(self),
            },
    {
        *self = self.try_sub(rhs)?;
        Ok(())
    }

    /// Resolves `self` to a pixel length against the reference size `size`:
    /// `Px(x)` gives `x`, `Percent(p)` gives `size * p / 100` (rounded toward
    /// zero), and `Undefined` or `Auto` fail with `NonEvaluateable`.
    pub fn evaluate(&self, size: i32) -> (r: Result<i64, ValArithmeticError>)
        ensures
            r == evaluation_of(*self, size as int),
            r matches Ok(x) ==> x == resolved(*self, size as int),
    {
        proof {
            lemma_resolved_bounds(*self, size);
        }
        match *self {
            Val::Percent(value) => {
                proof {
                    lemma_product_bounds(size, value);
                }
                let product: i64 = size as i64 * value as i64;
                if product >= 0 {
                    Ok(product / 100)
                } else {
                    Ok(-((-product) / 100))
                }
            },
            Val::Px(value) => Ok(value as i64),
            _ => Err(ValArithmeticError::NonEvaluateable),
        }
    }

    /// Evaluates both `self` and `rhs` against `size` (see [`Val::evaluate`])
    /// and adds the two pixel lengths; the variants may differ.
    pub fn try_add_with_size(&self, rhs: Val, size: i32) -> (r: Result<i64, ValArithmeticError>)
        ensures
            r == evaluated_sum(*self, rhs, size as int),
            r matches Ok(x) ==> x == resolved(*self, size as int) + resolved(rhs, size as int),
    {
        proof {
            lemma_resolved_bounds(*self, size);
            lemma_resolved_bounds(rhs, size);
        }
        let lhs = self.evaluate(size)?;
        let rhs = rhs.evaluate(size)?;
        Ok(lhs + rhs)
    }

    /// Sets `self` to the pixel length of `self` plus `rhs`, both evaluated
    /// against `size` (see [`Val::try_add_with_size`]); on failure `self` is
    /// left unchanged.
    pub fn try_add_assign_with_size(&mut self, rhs: Val, size: i32) -> (r: Result<(), ValArithmeticError>)
        requires
            is_numeric(*old(self)) && is_numeric(rhs) ==> fits_i32(
                resolved(*old(self), size as int) + resolved(rhs, size as int),
            ),
        ensures
            match evaluated_sum(*old(self), rhs, size as int) {
                Ok(v) => r is Ok && *final(self) == Val::Px(v as i32),
                Err(e) => r == Err::<(), ValArithmeticError>(e) && *final(self) == *old(self),
            },
            r is Ok ==> *final(self) is Px && amount(*final(self)) == resolved(*old(self), size as int)
                + resolved(rhs, size as int),
    {
        let sum = self.try_add_with_size(rhs, size)?;
        *self = Val::Px(sum as i32);
        Ok(())
    }

    /// Evaluates both `self` and `rhs` against `size` (see [`Val::evaluate`])
    /// and subtracts the pixel length of `rhs` from that of `self`; the
    /// variants may differ.
    pub fn try_sub_with_size(&self, rhs: Val, size: i32) -> (r: Result<i64, ValArithmeticError>)
        ensures
            r == evaluated_difference(*self, rhs, size as int),
            r matches Ok(x) ==> x == resolved(*self, size as int) - resolved(rhs, size as int),
    {
        proof {
            lemma_resolved_bounds(*self, size);
            lemma_resolved_bounds(rhs, size);
        }
        let lhs = self.evaluate(size)?;
        let rhs = rhs.evaluate(size)?;
        Ok(lhs - rhs)
    }

    /// Sets `self` to the pixel length of `self` minus `rhs`, both evaluated
    /// against `size` (see [`Val::try_sub_with_size`]); on failure `self` is
    /// left unchanged.
    pub fn try_sub_assign_with_size(&mut self, rhs: Val, size: i32) -> (r: Result<(), ValArithmeticError>)
        requires
            is_numeric(*old(self)) && is_numeric(rhs) ==> fits_i32(
                resolved(*old(self), size as int) - resolved(rhs, size as int),
            ),
        ensures
            match evaluated_difference(*old(self), rhs, size as int) {
                Ok(v) => r is Ok && *final(self) == Val::Px(v as i32),
                Err(e) => r == Err::<(), ValArithmeticError>(e) && *final(self) == *old(self),
            },
            r is Ok ==> *final(self) is Px && amount(*final(self)) == resolved(*old(self), size as int)
                - resolved(rhs, size as int),
    {
        let difference = self.try_sub_with_size(rhs, size)?;
        *self = Val::Px(difference as i32);
        Ok(())
    }
}

/// Adding or subtracting two pixel lengths, or two percentages, adds or
/// subtracts their numbers and keeps the variant (wherever the result fits).
pub proof fn law_same_kind_arithmetic(a: i32, b: i32)
    ensures
        fits_i32(a + b) ==> sum_of(Val::Px(a), Val::Px(b)) == Ok::<Val, ValArithmeticError>(
            Val::Px((a + b) as i32),
        ),
        fits_i32(a - b) ==> difference_of(Val::Px(a), Val::Px(b)) == Ok::<
            Val,
            ValArithmeticError,
        >(Val::Px((a - b) as i32)),
        fits_i32(a + b) ==> sum_of(Val::Percent(a), Val::Percent(b)) == Ok::<
            Val,
            ValArithmeticError,
        >(Val::Percent((a + b) as i32)),
        fits_i32(a - b) ==> difference_of(Val::Percent(a), Val::Percent(b)) == Ok::<
            Val,
            ValArithmeticError,
        >(Val::Percent((a - b) as i32)),
{
}

/// Adding or subtracting `Undefined` to `Undefined`, or `Auto` to `Auto`,
/// gives back the same value.
pub proof fn law_non_numeric_identity(v: Val)
    requires
        !is_numeric(v),
    ensures
        sum_of(v, v) == Ok::<Val, ValArithmeticError>(v),
        difference_of(v, v) == Ok::<Val, ValArithmeticError>(v),
{
}

/// Adding or subtracting values of different variants fails with
/// `NonIdenticalVariants`.
pub proof fn law_mixed_kinds_fail(a: Val, b: Val)
    requires
        !same_kind(a, b),
    ensures
        sum_of(a, b) == Err::<Val, ValArithmeticError>(ValArithmeticError::NonIdenticalVariants),
        difference_of(a, b) == Err::<Val, ValArithmeticError>(
            ValArithmeticError::NonIdenticalVariants,
        ),
{
}

/// A pixel length evaluates to its own number, whatever the reference size.
pub proof fn law_evaluate_px(v: i32, size: i32)
    ensures
        evaluation_of(Val::Px(v), size as int) == Ok::<i64, ValArithmeticError>(v as i64),
{
}

/// A percentage `p` evaluates to `size * p / 100`, rounded toward zero.
pub proof fn law_evaluate_percent(p: i32, size: i32)
    ensures
        evaluation_of(Val::Percent(p), size as int) is Ok,
        evaluation_of(Val::Percent(p), size as int)->Ok_0 == div_toward_zero(size * p, 100),
{
    lemma_resolved_bounds(Val::Percent(p), size);
}

/// `Undefined` and `Auto` fail to evaluate with `NonEvaluateable`, whatever
/// the reference size.
pub proof fn law_evaluate_non_numeric(v: Val, size: i32)
    requires
        !is_numeric(v),
    ensures
        evaluation_of(v, size as int) == Err::<i64, ValArithmeticError>(
            ValArithmeticError::NonEvaluateable,
        ),
{
}

/// Adding (or subtracting) with a reference size is the same as evaluating
/// both operands against that size and adding (or subtracting) the results:
/// it succeeds exactly when both operands evaluate, whatever their variants.
pub proof fn law_with_size_evaluates_both(a: Val, b: Val, size: i32)
    ensures
        evaluated_sum(a, b, size as int) is Ok <==> (evaluation_of(a, size as int) is Ok
            && evaluation_of(b, size as int) is Ok),
        evaluated_difference(a, b, size as int) is Ok <==> (evaluation_of(a, size as int) is Ok
            && evaluation_of(b, size as int) is Ok),
        evaluated_sum(a, b, size as int) is Ok ==> evaluated_sum(a, b, size as int)->Ok_0
            == evaluation_of(a, size as int)->Ok_0 + evaluation_of(b, size as int)->Ok_0,
        evaluated_difference(a, b, size as int) is Ok ==> evaluated_difference(
            a,
            b,
            size as int,
        )->Ok_0 == evaluation_of(a, size as int)->Ok_0 - evaluation_of(b, size as int)->Ok_0,
        !(evaluated_sum(a, b, size as int) is Ok) ==> evaluated_sum(a, b, size as int) == Err::<
            i64,
            ValArithmeticError,
        >(ValArithmeticError::NonEvaluateable),
        !(evaluated_difference(a, b, size as int) is Ok) ==> evaluated_difference(
            a,
            b,
            size as int,
        ) == Err::<i64, ValArithmeticError>(ValArithmeticError::NonEvaluateable),
{
    lemma_resolved_bounds(a, size);
    lemma_resolved_bounds(b, size);
}

} // verus!
