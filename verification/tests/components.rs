use gurgle::checker::{Checker, Compare};
use gurgle::expr::{Operator, PostProcessor};
use gurgle::config::{Config, Limit};
use gurgle::detail::{Language, OutputSpans};
use gurgle::error::CompileError;
use gurgle::tree::{BinaryTree, BinaryTreeNode};

#[test]
fn checker_check_all_comparators() {
    let c = Checker { compare: Compare::Gte, target: 10 };
    assert!(c.check(11));
    assert!(c.check(10));
    assert!(!c.check(9));
    let c = Checker { compare: Compare::Gt, target: 10 };
    assert!(c.check(11));
    assert!(!c.check(10));
    let c = Checker { compare: Compare::Lte, target: 10 };
    assert!(c.check(10));
    assert!(c.check(9));
    assert!(!c.check(11));
    let c = Checker { compare: Compare::Lt, target: 10 };
    assert!(!c.check(10));
    assert!(c.check(9));
    let c = Checker { compare: Compare::Eq, target: -3 };
    assert!(c.check(-3));
    assert!(!c.check(3));
}

#[test]
fn config_default_and_builders() {
    let c = Config::default();
    assert_eq!(c.max_item_count, 20);
    assert_eq!(c.max_dice_sides, 1000);
    assert_eq!(c.max_roll_times, 100);
    assert_eq!(c.max_number_item_value, 65536);
    let c = Config::default()
        .max_item_count(5)
        .max_dice_sides(8)
        .max_roll_times(4)
        .max_number_item_value(100);
    assert_eq!(c.max_item_count, 5);
    assert_eq!(c.max_dice_sides, 8);
    assert_eq!(c.max_roll_times, 4);
    assert_eq!(c.max_number_item_value, 100);
}

#[test]
fn limit_counters_and_checks() {
    let config = Config::default().max_item_count(2).max_roll_times(10);
    let mut limit = Limit::new(&config);
    assert_eq!(limit.item_count, 0);
    assert_eq!(limit.roll_times, 0);
    assert!(limit.inc_item_count().is_ok());
    assert!(limit.inc_item_count().is_ok());
    assert_eq!(limit.item_count, 2);
    assert_eq!(
        limit.inc_item_count().unwrap_err(),
        CompileError::ItemCountLimitExceeded
    );
    assert!(limit.inc_roll_times(10).is_ok());
    assert_eq!(
        limit.inc_roll_times(1).unwrap_err(),
        CompileError::DiceRollTimesLimitExceeded
    );
    assert_eq!(limit.roll_times, 11);
    assert!(limit.check().is_err());
}

#[test]
fn limit_value_checks() {
    let config = Config::default();
    let limit = Limit::new(&config);
    assert!(limit.check_number_item(65536).is_ok());
    assert!(limit.check_number_item(-65536).is_ok());
    assert_eq!(
        limit.check_number_item(65537).unwrap_err(),
        CompileError::NumberItemOutOfRange
    );
    assert!(limit.check_dice(100, 1000).is_ok());
    assert_eq!(
        limit.check_dice(0, 6).unwrap_err(),
        CompileError::DiceRollOrSidedNegative
    );
    assert_eq!(
        limit.check_dice(3, -1).unwrap_err(),
        CompileError::DiceRollOrSidedNegative
    );
    assert_eq!(
        limit.check_dice(101, 6).unwrap_err(),
        CompileError::DiceRollTimesLimitExceeded
    );
    assert_eq!(
        limit.check_dice(3, 1001).unwrap_err(),
        CompileError::DiceSidedCountLimitExceeded
    );
    assert!(limit.check().is_ok());
}

#[test]
fn binary_tree_accessors() {
    let t: BinaryTree<i64, char> =
        BinaryTree::new(BinaryTreeNode::Leaf(1), BinaryTreeNode::Leaf(2), '+');
    assert_eq!(t.mid, '+');
    assert!(t.left.is_leaf());
    assert!(!t.left.is_tree());
    assert_eq!(t.left.as_leaf(), Some(&1));
    assert_eq!(t.right.as_leaf(), Some(&2));
    assert!(t.left.as_tree().is_none());
    let node: BinaryTreeNode<i64, char> = BinaryTreeNode::Tree(t);
    assert!(node.is_tree());
    assert!(!node.is_leaf());
    assert!(node.as_leaf().is_none());
    assert_eq!(node.as_tree().unwrap().mid, '+');
}

#[test]
fn parse_enum_symbols() {
    assert_eq!("sum".parse::<PostProcessor>(), Ok(PostProcessor::Sum));
    assert_eq!("AVG".parse::<PostProcessor>(), Ok(PostProcessor::Avg));
    assert_eq!("Max".parse::<PostProcessor>(), Ok(PostProcessor::Max));
    assert_eq!("min".parse::<PostProcessor>(), Ok(PostProcessor::Min));
    assert!("mean".parse::<PostProcessor>().is_err());
    assert!("".parse::<PostProcessor>().is_err());

    assert_eq!("+".parse::<Operator>(), Ok(Operator::Add));
    assert_eq!("-".parse::<Operator>(), Ok(Operator::Minus));
    assert_eq!("*".parse::<Operator>(), Ok(Operator::Multiply));
    assert_eq!("x".parse::<Operator>(), Ok(Operator::Multiply));
    assert!("/".parse::<Operator>().is_err());

    assert_eq!(">=".parse::<Compare>(), Ok(Compare::Gte));
    assert_eq!(">".parse::<Compare>(), Ok(Compare::Gt));
    assert_eq!("<=".parse::<Compare>(), Ok(Compare::Lte));
    assert_eq!("<".parse::<Compare>(), Ok(Compare::Lt));
    assert_eq!("=".parse::<Compare>(), Ok(Compare::Eq));
    assert_eq!("==".parse::<Compare>(), Ok(Compare::Eq));
    assert!("!=".parse::<Compare>().is_err());
}

#[test]
fn language_values() {
    assert_eq!(Language::EN.value(), 0);
    assert_eq!(Language::ZhCN.value(), 1);
    assert_eq!(Language::Custom.value(), 999);
    assert_eq!(Language::from_value(0), Language::EN);
    assert_eq!(Language::from_value(1), Language::ZhCN);
    assert_eq!(Language::from_value(999), Language::Custom);
}

#[test]
fn output_spans_predefined() {
    let en = OutputSpans::new_en();
    assert_eq!(en.comma, ", ");
    assert_eq!(en.target_is, "target is");
    assert_eq!(en.success, "success");
    assert_eq!(en.failed, "failed");
    let zh = OutputSpans::new_zh_cn();
    assert_eq!(zh.comma, "，");
    assert_eq!(zh.target_is, "目标为");
    assert_eq!(zh.success, "通过");
    assert_eq!(zh.failed, "失败");
    assert!(OutputSpans::predefined(&Language::EN).is_some());
    assert!(OutputSpans::predefined(&Language::ZhCN).is_some());
    assert!(OutputSpans::predefined(&Language::Custom).is_none());
}
