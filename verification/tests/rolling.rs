use gurgle::checker::Compare;
use gurgle::expr::{Dice, PostProcessor};
use gurgle::roll::DiceRoll;
use gurgle::{roll, Gurgle};

#[test]
fn test_roll() {
    let attack_dices = Gurgle::compile("3d6+2d2+2>12").unwrap();
    let attack = attack_dices.roll();
    println!("attack expr: {:?}", attack.expr());
    println!("attack = {}", attack.value());
    assert!(attack.value() >= 4);
    assert_eq!(attack.success().unwrap(), attack.value() > 12);
}

// A roll of `times = n, sides = s` produces exactly `n` points, each in
// `[1, s]`.
#[test]
fn roll_points_count_and_range() {
    let d = Dice::new(10, 6);
    let r = d.roll();
    assert_eq!(r.len(), 10);
    assert_eq!(r.points().len(), 10);
    for p in r.points() {
        assert!(1 <= *p && *p <= 6);
    }
    assert_eq!(r.post_processor(), PostProcessor::Sum);
}

#[test]
fn dice_constructors() {
    let d = Dice::new(3, 6);
    assert_eq!(d.times, 3);
    assert_eq!(d.sided, 6);
    assert_eq!(d.pp, PostProcessor::Sum);
    let d = Dice::new_with_pp(2, 4, PostProcessor::Min);
    assert_eq!(d.pp, PostProcessor::Min);
}

// The reductions on fixed points: sum, floored average, max, min.
#[test]
fn reduction_exact_values() {
    let pts = vec![3u64, 5, 2, 2];
    assert_eq!(DiceRoll::new(pts.clone(), PostProcessor::Sum).value(), 12);
    assert_eq!(DiceRoll::new(pts.clone(), PostProcessor::Avg).value(), 3);
    assert_eq!(DiceRoll::new(pts.clone(), PostProcessor::Max).value(), 5);
    assert_eq!(DiceRoll::new(pts, PostProcessor::Min).value(), 2);
    // 7 / 2 rounds down
    assert_eq!(DiceRoll::new(vec![3u64, 4], PostProcessor::Avg).value(), 3);
    assert_eq!(DiceRoll::new(vec![9u64], PostProcessor::Avg).value(), 9);
}

// Sum of a roll lies in [n, n*s]; max, min and avg lie in [1, s].
#[test]
fn reduction_bounds_of_rolls() {
    let v = Gurgle::compile("5d6").unwrap().roll().value();
    assert!(5 <= v && v <= 30);
    let v = Gurgle::compile("5d6max").unwrap().roll().value();
    assert!(1 <= v && v <= 6);
    let v = Gurgle::compile("5d6min").unwrap().roll().value();
    assert!(1 <= v && v <= 6);
    let v = Gurgle::compile("5d6avg").unwrap().roll().value();
    assert!(1 <= v && v <= 6);
}

// `1+2*3` is 7, not 9.
#[test]
fn precedence_value() {
    assert_eq!(roll("1+2*3").unwrap(), 7);
}

// `(1+2)*3` is 9.
#[test]
fn parentheses_value() {
    assert_eq!(roll("(1+2)*3").unwrap(), 9);
}

#[test]
fn constant_arithmetic_values() {
    assert_eq!(roll("1").unwrap(), 1);
    assert_eq!(roll("-1").unwrap(), -1);
    assert_eq!(roll("1+1").unwrap(), 2);
    assert_eq!(roll("2-5").unwrap(), -3);
    assert_eq!(roll("2*3+4*5").unwrap(), 26);
    assert_eq!(roll("100-10*10").unwrap(), 0);
    assert_eq!(roll("((2))").unwrap(), 2);
    assert_eq!(roll("1-2-3").unwrap(), -4);
    assert_eq!(roll("2*3*4").unwrap(), 24);
    assert_eq!(roll("100+-1").unwrap(), 99);
}

// `10>=10` passes; `9>10` fails; without a checker there is no judgment.
#[test]
fn condition_checking() {
    let g = Gurgle::compile("10>=10").unwrap();
    assert_eq!(g.roll().success(), Some(true));
    let g = Gurgle::compile("9>10").unwrap();
    assert_eq!(g.roll().success(), Some(false));
    let g = Gurgle::compile("10").unwrap();
    assert_eq!(g.roll().success(), None);
}

#[test]
fn condition_comparators() {
    assert_eq!(Gurgle::compile("5>5").unwrap().roll().success(), Some(false));
    assert_eq!(Gurgle::compile("5<5").unwrap().roll().success(), Some(false));
    assert_eq!(Gurgle::compile("5<=5").unwrap().roll().success(), Some(true));
    assert_eq!(Gurgle::compile("5=5").unwrap().roll().success(), Some(true));
    assert_eq!(Gurgle::compile("5==5").unwrap().roll().success(), Some(true));
    assert_eq!(Gurgle::compile("4<5").unwrap().roll().success(), Some(true));
    assert_eq!(Gurgle::compile("5=-5").unwrap().roll().success(), Some(false));
}

// Reading the value twice returns the identical number; rolling the same
// compiled command again is a fresh evaluation.
#[test]
fn value_read_is_idempotent() {
    let g = Gurgle::compile("90d1000+2d6max").unwrap();
    let r = g.roll();
    let v1 = r.value();
    let v2 = r.value();
    assert_eq!(v1, v2);
    // a fresh roll of the same command stays within the same bounds
    let r2 = g.roll();
    assert!(91 <= r2.value());
}

// For an expression of plain numbers, evaluation is deterministic: two
// rolls return the same value.
#[test]
fn constant_expression_deterministic() {
    let g = Gurgle::compile("(1+2)*3-4").unwrap();
    assert_eq!(g.roll().value(), 5);
    assert_eq!(g.roll().value(), 5);
    assert_eq!(roll("65536").unwrap(), 65536);
}

// A one-sided dice has only one outcome: the wrapper's range collapses.
#[test]
fn one_sided_dice() {
    assert_eq!(roll("3d1").unwrap(), 3);
    assert_eq!(roll("5d1max").unwrap(), 1);
    assert_eq!(roll("5d1avg").unwrap(), 1);
}

#[test]
fn checker_carried_through_roll() {
    let g = Gurgle::compile("2d6>=3").unwrap();
    let c = g.checker().unwrap();
    assert_eq!(c.compare, Compare::Gte);
    assert_eq!(c.target, 3);
    let r = g.roll();
    let rc = r.checker().unwrap();
    assert_eq!(rc.target, 3);
    assert_eq!(r.success().unwrap(), r.value() >= 3);
}

#[test]
fn rolled_tree_mirrors_expression() {
    let g = Gurgle::compile("2d6+1").unwrap();
    let r = g.roll();
    let root = r.expr().as_tree().unwrap();
    assert_eq!(root.value(), r.value());
    let left = root.left.as_leaf().unwrap();
    // the left leaf is the dice roll: two points, each in [1, 6]
    match left {
        gurgle::roll::ItemRoll::Dice(d) => {
            assert_eq!(d.len(), 2);
            for p in d.points() {
                assert!(1 <= *p && *p <= 6);
            }
            let s: u64 = d.points().iter().sum();
            assert_eq!(d.value(), s);
        }
        _ => panic!("left leaf should be a dice roll"),
    }
    assert_eq!(root.right.value(), 1);
}
