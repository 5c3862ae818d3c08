use bevy_ui::{Val, ValArithmeticError};

#[test]
fn val_try_add() {
    let undefined_sum = Val::Undefined.try_add(Val::Undefined).unwrap();
    let auto_sum = Val::Auto.try_add(Val::Auto).unwrap();
    let px_sum = Val::Px(20).try_add(Val::Px(22)).unwrap();
    let percent_sum = Val::Percent(50).try_add(Val::Percent(50)).unwrap();

    assert_eq!(undefined_sum, Val::Undefined);
    assert_eq!(auto_sum, Val::Auto);
    assert_eq!(px_sum, Val::Px(42));
    assert_eq!(percent_sum, Val::Percent(100));
}

#[test]
fn val_try_add_to_self() {
    let mut val = Val::Px(5);

    val.try_add_assign(Val::Px(3)).unwrap();

    assert_eq!(val, Val::Px(8));
}

#[test]
fn val_try_sub() {
    let undefined_sum = Val::Undefined.try_sub(Val::Undefined).unwrap();
    let auto_sum = Val::Auto.try_sub(Val::Auto).unwrap();
    let px_sum = Val::Px(72).try_sub(Val::Px(30)).unwrap();
    let percent_sum = Val::Percent(100).try_sub(Val::Percent(50)).unwrap();

    assert_eq!(undefined_sum, Val::Undefined);
    assert_eq!(auto_sum, Val::Auto);
    assert_eq!(px_sum, Val::Px(42));
    assert_eq!(percent_sum, Val::Percent(50));
}

#[test]
fn different_variant_val_try_add() {
    let different_variant_sum_1 = Val::Undefined.try_add(Val::Auto);
    let different_variant_sum_2 = Val::Px(50).try_add(Val::Percent(50));
    let different_variant_sum_3 = Val::Percent(50).try_add(Val::Undefined);

    assert_eq!(different_variant_sum_1, Err(ValArithmeticError::NonIdenticalVariants));
    assert_eq!(different_variant_sum_2, Err(ValArithmeticError::NonIdenticalVariants));
    assert_eq!(different_variant_sum_3, Err(ValArithmeticError::NonIdenticalVariants));
}

#[test]
fn different_variant_val_try_sub() {
    let different_variant_diff_1 = Val::Undefined.try_sub(Val::Auto);
    let different_variant_diff_2 = Val::Px(50).try_sub(Val::Percent(50));
    let different_variant_diff_3 = Val::Percent(50).try_sub(Val::Undefined);

    assert_eq!(different_variant_diff_1, Err(ValArithmeticError::NonIdenticalVariants));
    assert_eq!(different_variant_diff_2, Err(ValArithmeticError::NonIdenticalVariants));
    assert_eq!(different_variant_diff_3, Err(ValArithmeticError::NonIdenticalVariants));
}

#[test]
fn val_evaluate() {
    let size: i32 = 250;
    let result = Val::Percent(80).evaluate(size).unwrap();

    assert_eq!(result, (size as i64) * 8 / 10);
    assert_eq!(result, 200);
}

#[test]
fn val_evaluate_px() {
    let size: i32 = 250;
    let result = Val::Px(10).evaluate(size).unwrap();

    assert_eq!(result, 10);
}

#[test]
fn val_invalid_evaluation() {
    let size: i32 = 250;
    let evaluate_undefined = Val::Undefined.evaluate(size);
    let evaluate_auto = Val::Auto.evaluate(size);

    assert_eq!(evaluate_undefined, Err(ValArithmeticError::NonEvaluateable));
    assert_eq!(evaluate_auto, Err(ValArithmeticError::NonEvaluateable));
}

#[test]
fn val_try_add_with_size() {
    let size: i32 = 250;

    let px_sum = Val::Px(21).try_add_with_size(Val::Px(21), size).unwrap();
    let percent_sum = Val::Percent(20).try_add_with_size(Val::Percent(30), size).unwrap();
    let mixed_sum = Val::Px(20).try_add_with_size(Val::Percent(30), size).unwrap();

    assert_eq!(px_sum, 42);
    assert_eq!(percent_sum, (size as i64) / 2);
    assert_eq!(mixed_sum, 20 + (size as i64) * 3 / 10);
}

#[test]
fn val_try_sub_with_size() {
    let size: i32 = 250;

    let px_sum = Val::Px(60).try_sub_with_size(Val::Px(18), size).unwrap();
    let percent_sum = Val::Percent(80).try_sub_with_size(Val::Percent(30), size).unwrap();
    let mixed_sum = Val::Percent(50).try_sub_with_size(Val::Px(30), size).unwrap();

    assert_eq!(px_sum, 42);
    assert_eq!(percent_sum, (size as i64) / 2);
    assert_eq!(mixed_sum, (size as i64) / 2 - 30);
}

#[test]
fn val_try_add_non_numeric_with_size() {
    let size: i32 = 250;

    let undefined_sum = Val::Undefined.try_add_with_size(Val::Undefined, size);
    let percent_sum = Val::Auto.try_add_with_size(Val::Auto, size);

    assert_eq!(undefined_sum, Err(ValArithmeticError::NonEvaluateable));
    assert_eq!(percent_sum, Err(ValArithmeticError::NonEvaluateable));
}

#[test]
fn val_arithmetic_error_messages() {
    assert_eq!(
        ValArithmeticError::NonIdenticalVariants.message(),
        "the variants of the Vals don't match"
    );
    assert_eq!(
        ValArithmeticError::NonEvaluateable.message(),
        "the given variant of Val is not evaluateable (non-numeric)"
    );
}

#[test]
fn numeric_add_and_sub_keep_the_variant() {
    assert_eq!(Val::Px(-5).try_add(Val::Px(12)), Ok(Val::Px(7)));
    assert_eq!(Val::Px(-5).try_sub(Val::Px(12)), Ok(Val::Px(-17)));
    assert_eq!(Val::Percent(30).try_add(Val::Percent(-10)), Ok(Val::Percent(20)));
    assert_eq!(Val::Percent(30).try_sub(Val::Percent(45)), Ok(Val::Percent(-15)));
}

#[test]
fn non_numeric_add_and_sub_are_identities() {
    assert_eq!(Val::Undefined.try_sub(Val::Undefined), Ok(Val::Undefined));
    assert_eq!(Val::Auto.try_add(Val::Auto), Ok(Val::Auto));
}

#[test]
fn mixed_kinds_fail_both_ways() {
    assert_eq!(Val::Auto.try_add(Val::Px(1)), Err(ValArithmeticError::NonIdenticalVariants));
    assert_eq!(Val::Percent(1).try_sub(Val::Px(1)), Err(ValArithmeticError::NonIdenticalVariants));
    assert_eq!(Val::Undefined.try_sub(Val::Percent(3)), Err(ValArithmeticError::NonIdenticalVariants));
}

#[test]
fn failed_assign_leaves_value_unchanged() {
    let mut val = Val::Px(5);
    assert_eq!(val.try_add_assign(Val::Auto), Err(ValArithmeticError::NonIdenticalVariants));
    assert_eq!(val, Val::Px(5));
    assert_eq!(val.try_sub_assign(Val::Percent(1)), Err(ValArithmeticError::NonIdenticalVariants));
    assert_eq!(val, Val::Px(5));
    let mut auto = Val::Auto;
    assert_eq!(auto.try_add_assign_with_size(Val::Px(3), 100), Err(ValArithmeticError::NonEvaluateable));
    assert_eq!(auto, Val::Auto);
}

#[test]
fn sub_assign_subtracts() {
    let mut val = Val::Percent(40);
    val.try_sub_assign(Val::Percent(15)).unwrap();
    assert_eq!(val, Val::Percent(25));
}

#[test]
fn evaluate_px_ignores_reference_size() {
    assert_eq!(Val::Px(-13).evaluate(0), Ok(-13));
    assert_eq!(Val::Px(-13).evaluate(i32::MAX), Ok(-13));
}

#[test]
fn evaluate_percent_rounds_toward_zero() {
    assert_eq!(Val::Percent(33).evaluate(250), Ok(82));
    assert_eq!(Val::Percent(-33).evaluate(250), Ok(-82));
    assert_eq!(Val::Percent(33).evaluate(-250), Ok(-82));
    assert_eq!(Val::Percent(0).evaluate(250), Ok(0));
}

#[test]
fn evaluate_percent_at_the_extremes() {
    let big = Val::Percent(i32::MAX).evaluate(i32::MAX).unwrap();
    assert_eq!(big, (i32::MAX as i64) * (i32::MAX as i64) / 100);
    let low = Val::Percent(i32::MIN).evaluate(i32::MIN).unwrap();
    assert_eq!(low, (i32::MIN as i64) * (i32::MIN as i64) / 100);
}

#[test]
fn non_numeric_never_evaluates() {
    assert_eq!(Val::Auto.evaluate(0), Err(ValArithmeticError::NonEvaluateable));
    assert_eq!(Val::Undefined.evaluate(-4), Err(ValArithmeticError::NonEvaluateable));
    assert_eq!(Val::Px(1).try_sub_with_size(Val::Auto, 10), Err(ValArithmeticError::NonEvaluateable));
}

#[test]
fn with_size_matches_separate_evaluations() {
    let a = Val::Px(20);
    let b = Val::Percent(30);
    let sum = a.evaluate(250).unwrap() + b.evaluate(250).unwrap();
    assert_eq!(a.try_add_with_size(b, 250), Ok(sum));
    assert_eq!(sum, 95);
}

#[test]
fn assign_with_size_turns_into_pixels() {
    let mut val = Val::Percent(50);
    val.try_add_assign_with_size(Val::Px(10), 300).unwrap();
    assert_eq!(val, Val::Px(160));
    let mut val = Val::Percent(50);
    val.try_sub_assign_with_size(Val::Px(10), 300).unwrap();
    assert_eq!(val, Val::Px(140));
}

#[test]
fn scaling_multiplies_and_divides_numbers_only() {
    assert_eq!(Val::Px(7).mul(3), Val::Px(21));
    assert_eq!(Val::Percent(-4).mul(5), Val::Percent(-20));
    assert_eq!(Val::Auto.mul(9), Val::Auto);
    assert_eq!(Val::Px(-7).div(2), Val::Px(-3));
    assert_eq!(Val::Percent(9).div(-2), Val::Percent(-4));
    assert_eq!(Val::Undefined.div(3), Val::Undefined);
    let mut val = Val::Px(6);
    val.mul_assign(4);
    assert_eq!(val, Val::Px(24));
    val.div_assign(5);
    assert_eq!(val, Val::Px(4));
}

#[test]
fn val_default_and_from() {
    assert_eq!(Val::default(), Val::Undefined);
    assert_eq!(Val::from(12), Val::Px(12));
}
