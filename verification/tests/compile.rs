use gurgle::config::Config;
use gurgle::error::CompileError;
use gurgle::expr::{Operator, PostProcessor};
use gurgle::Gurgle;

#[test]
fn test_parser_correct() {
    assert!(Gurgle::compile("1d6+1").is_ok());
    assert!(Gurgle::compile("3d6+2d10+1").is_ok());
    assert!(Gurgle::compile("3d6max+2d10min+1").is_ok());
    assert!(Gurgle::compile("3d6max+2d10min+1>=10").is_ok());
    assert!(Gurgle::compile("3d6max+2d10min+1>=-10").is_ok());
    assert!(Gurgle::compile("100d1000+-1").is_ok());
}

#[test]
fn test_parser_invalid() {
    assert!(matches!(
        Gurgle::compile("+").unwrap_err(),
        CompileError::InvalidSyntax(_)
    ));
    assert!(matches!(
        Gurgle::compile("good").unwrap_err(),
        CompileError::InvalidSyntax(_)
    ));
    assert!(matches!(
        Gurgle::compile("1d6x1").unwrap_err(),
        CompileError::InvalidSyntax(_)
    ));
    assert!(matches!(
        Gurgle::compile("3d6+2p10+1").unwrap_err(),
        CompileError::InvalidSyntax(_)
    ));
    assert!(matches!(
        Gurgle::compile("3d6max+2d10min+1avg").unwrap_err(),
        CompileError::InvalidSyntax(_)
    ));
    assert!(matches!(
        Gurgle::compile("3d6+100000000000000000000000000").unwrap_err(),
        CompileError::ParseNumberError(_),
    ));
}

#[test]
fn test_compile_error() {
    assert_eq!(
        Gurgle::compile("10d-10").unwrap_err(),
        CompileError::DiceRollOrSidedNegative,
    );
    assert_eq!(
        Gurgle::compile("-10d10").unwrap_err(),
        CompileError::DiceRollOrSidedNegative,
    );
    assert_eq!(
        Gurgle::compile(
            "3d6+3d6+3d6+3d6+3d6+3d6+3d6+3d6+3d6+3d6+3d6+3d6+3d6+3d6+3d6+3d6+3d6+3d6+3d6+3d6+1"
        )
        .unwrap_err(),
        CompileError::ItemCountLimitExceeded,
    );
    assert_eq!(
        Gurgle::compile("10d1001").unwrap_err(),
        CompileError::DiceSidedCountLimitExceeded,
    );
    assert_eq!(
        Gurgle::compile("1001d10").unwrap_err(),
        CompileError::DiceRollTimesLimitExceeded,
    );
    assert_eq!(
        Gurgle::compile("1000d10+1d10").unwrap_err(),
        CompileError::DiceRollTimesLimitExceeded,
    );
    assert_eq!(
        Gurgle::compile("65537").unwrap_err(),
        CompileError::NumberItemOutOfRange,
    );
    assert_eq!(
        Gurgle::compile("-65537").unwrap_err(),
        CompileError::NumberItemOutOfRange,
    );
}

// The default limits, checked one by one: 1001 sides, 101 roll times, a
// 21st item, a number of magnitude 65537.
#[test]
fn default_limits_enforced() {
    assert_eq!(
        Gurgle::compile("2d1001").unwrap_err(),
        CompileError::DiceSidedCountLimitExceeded,
    );
    assert_eq!(
        Gurgle::compile("101d6").unwrap_err(),
        CompileError::DiceRollTimesLimitExceeded,
    );
    assert!(Gurgle::compile("100d6").is_ok());
    assert!(Gurgle::compile("2d1000").is_ok());
    assert!(Gurgle::compile("65536").is_ok());
    // the roll-times quota is shared across all dice of one expression
    assert_eq!(
        Gurgle::compile("60d6+60d6").unwrap_err(),
        CompileError::DiceRollTimesLimitExceeded,
    );
}

#[test]
fn zero_or_negative_dice_rejected() {
    assert_eq!(
        Gurgle::compile("0d6").unwrap_err(),
        CompileError::DiceRollOrSidedNegative,
    );
    assert_eq!(
        Gurgle::compile("3d-1").unwrap_err(),
        CompileError::DiceRollOrSidedNegative,
    );
    assert_eq!(
        Gurgle::compile("3d0").unwrap_err(),
        CompileError::DiceRollOrSidedNegative,
    );
}

#[test]
fn custom_config_limits() {
    let config = Config::default().max_item_count(2);
    assert!(Gurgle::compile_with_config("1+2", &config).is_ok());
    assert_eq!(
        Gurgle::compile_with_config("1+2+3", &config).unwrap_err(),
        CompileError::ItemCountLimitExceeded,
    );

    let config = Config::default().max_number_item_value(10);
    assert_eq!(
        Gurgle::compile_with_config("11", &config).unwrap_err(),
        CompileError::NumberItemOutOfRange,
    );

    let config = Config::default().max_dice_sides(6).max_roll_times(3);
    assert_eq!(
        Gurgle::compile_with_config("2d7", &config).unwrap_err(),
        CompileError::DiceSidedCountLimitExceeded,
    );
    assert_eq!(
        Gurgle::compile_with_config("4d6", &config).unwrap_err(),
        CompileError::DiceRollTimesLimitExceeded,
    );
}

// Parenthesized sub-expressions share the same counters as the outer
// expression.
#[test]
fn limits_shared_through_parentheses() {
    assert_eq!(
        Gurgle::compile("(60d6)+(60d6)").unwrap_err(),
        CompileError::DiceRollTimesLimitExceeded,
    );
    assert_eq!(
        Gurgle::compile("(65537)").unwrap_err(),
        CompileError::NumberItemOutOfRange,
    );
}

// The tree of `3d6max+1`: an addition whose left leaf is the dice and
// whose right leaf is the number.
#[test]
fn compiled_tree_shape() {
    let g = Gurgle::compile("3d6max+1").unwrap();
    let root = g.expr().as_tree().unwrap();
    assert!(matches!(root.mid, Operator::Add));
    assert!(root.left.is_leaf());
    assert!(!root.left.is_tree());
    let dice_item = root.left.as_leaf().unwrap();
    assert!(dice_item.is_dice());
    let d = dice_item.as_dice().unwrap();
    assert_eq!(d.times, 3);
    assert_eq!(d.sided, 6);
    assert_eq!(d.pp, PostProcessor::Max);
    let num_item = root.right.as_leaf().unwrap();
    assert!(num_item.is_number());
    assert_eq!(num_item.as_number(), Some(1));
    assert!(g.checker().is_none());
}

// `*` binds tighter than `+`: the root of `1+2*3` is the addition.
#[test]
fn precedence_tree_shape() {
    let g = Gurgle::compile("1+2*3").unwrap();
    let root = g.expr().as_tree().unwrap();
    assert!(matches!(root.mid, Operator::Add));
    assert_eq!(root.left.as_leaf().unwrap().as_number(), Some(1));
    let right = root.right.as_tree().unwrap();
    assert!(matches!(right.mid, Operator::Multiply));
    assert_eq!(right.left.as_leaf().unwrap().as_number(), Some(2));
    assert_eq!(right.right.as_leaf().unwrap().as_number(), Some(3));
}

// Parentheses override precedence: the root of `(1+2)*3` is the
// multiplication, and its left child is a parenthesized item.
#[test]
fn parentheses_tree_shape() {
    let g = Gurgle::compile("(1+2)*3").unwrap();
    let root = g.expr().as_tree().unwrap();
    assert!(matches!(root.mid, Operator::Multiply));
    let left_item = root.left.as_leaf().unwrap();
    assert!(left_item.is_expr());
    let inner = left_item.as_expr().unwrap().as_tree().unwrap();
    assert!(matches!(inner.mid, Operator::Add));
    assert_eq!(root.right.as_leaf().unwrap().as_number(), Some(3));
}

#[test]
fn spaces_between_tokens() {
    assert!(Gurgle::compile("3d6max + 2d4 + 1").is_ok());
    assert!(Gurgle::compile("3d6+2d4+1 > 10").is_ok());
    assert!(matches!(
        Gurgle::compile("3d6 max").unwrap_err(),
        CompileError::InvalidSyntax(_)
    ));
    assert!(matches!(
        Gurgle::compile("3 d6").unwrap_err(),
        CompileError::InvalidSyntax(_)
    ));
}

#[test]
fn keyword_case_insensitive() {
    assert!(Gurgle::compile("3d6MAX").is_ok());
    assert!(Gurgle::compile("3d6Avg").is_ok());
    assert!(Gurgle::compile("3d6sUm").is_ok());
    assert!(matches!(
        Gurgle::compile("3d6mean").unwrap_err(),
        CompileError::InvalidSyntax(_)
    ));
}

#[test]
fn unbalanced_parentheses_rejected() {
    assert!(matches!(
        Gurgle::compile("(1+2").unwrap_err(),
        CompileError::InvalidSyntax(_)
    ));
    assert!(matches!(
        Gurgle::compile("1+2)").unwrap_err(),
        CompileError::InvalidSyntax(_)
    ));
    assert!(matches!(
        Gurgle::compile("()").unwrap_err(),
        CompileError::InvalidSyntax(_)
    ));
}

// Syntax is judged on the whole command before any limit: a malformed
// tail turns a would-be limit error into a syntax error.
#[test]
fn syntax_checked_before_limits() {
    assert!(matches!(
        Gurgle::compile("65537+").unwrap_err(),
        CompileError::InvalidSyntax(_)
    ));
    assert!(matches!(
        Gurgle::compile("1001d10 foo").unwrap_err(),
        CompileError::InvalidSyntax(_)
    ));
}

#[test]
fn error_messages() {
    assert_eq!(
        CompileError::ItemCountLimitExceeded.message(),
        "items count limit exceeded"
    );
    assert_eq!(
        CompileError::NumberItemOutOfRange.message(),
        "number item out of range"
    );
    assert_eq!(
        CompileError::DiceRollOrSidedNegative.message(),
        "roll times or sides can't be negative"
    );
}

#[test]
fn clone_compiled_command() {
    let g = Gurgle::compile("3d6max+(1+2)*3>=10").unwrap();
    let h = g.clone();
    assert_eq!(g, h);
    assert_eq!(g.expr(), h.expr());
    assert_eq!(g.checker(), h.checker());
}
