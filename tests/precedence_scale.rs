use std::cmp::Ordering;
use syntax_model::Precedence;

fn scale() -> Vec<Precedence> {
    vec![
        Precedence::Lowest,
        Precedence::Assign,
        Precedence::Range,
        Precedence::Or,
        Precedence::And,
        Precedence::Equals,
        Precedence::LessGreater,
        Precedence::BitOr,
        Precedence::BitXor,
        Precedence::BitAnd,
        Precedence::Shift,
        Precedence::Sum,
        Precedence::Product,
        Precedence::Prefix,
        Precedence::Call,
        Precedence::Index,
        Precedence::Bool,
    ]
}

#[test]
fn scale_is_strictly_increasing() {
    let s = scale();
    for i in 0..s.len() {
        assert_eq!(s[i].level() as usize, i);
        for j in 0..s.len() {
            assert_eq!(s[i] < s[j], i < j);
            assert_eq!(s[i] == s[j], i == j);
            assert_eq!(s[i].binds_tighter_than(&s[j]), i > j);
        }
    }
}

#[test]
fn comparison_orders() {
    assert_eq!(Precedence::Sum.partial_cmp(&Precedence::Product), Some(Ordering::Less));
    assert_eq!(Precedence::Call.partial_cmp(&Precedence::Prefix), Some(Ordering::Greater));
    assert_eq!(Precedence::Or.partial_cmp(&Precedence::Or), Some(Ordering::Equal));
    assert!(Precedence::Lowest <= Precedence::Lowest);
    assert!(Precedence::Bool > Precedence::Index);
}
