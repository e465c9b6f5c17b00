// The matching combinators: first-match-wins ordering of `or`, and the
// behavior of each primitive on concrete inputs.
use sql_redis::pattern::combinators::{
    Pattern, always, and_then, extract, never, optional, or, pair, predicate,
};

#[test]
fn test_extract_and_map() {
    let positive = extract(|x: &i32| if *x > 0 { Some(*x) } else { None });
    assert_eq!(positive.match_pattern(&3), Ok(3));
    assert_eq!(positive.match_pattern(&-3), Err(()));
    let doubled = sql_redis::pattern::combinators::map(extract(|x: &i32| if *x > 0 { Some(*x) } else { None }), |v: i32| v * 2);
    assert_eq!(doubled.match_pattern(&3), Ok(6));
    assert_eq!(doubled.match_pattern(&-3), Err(()));
}

#[test]
fn test_or_overlapping_order_decides() {
    // Two overlapping patterns: reordering changes only which one is
    // returned.
    let a = extract(|_x: &i32| Some(1));
    let b = extract(|_x: &i32| Some(2));
    assert_eq!(or(a, b).match_pattern(&0), Ok(1));
    let a = extract(|_x: &i32| Some(1));
    let b = extract(|_x: &i32| Some(2));
    assert_eq!(or(b, a).match_pattern(&0), Ok(2));
}

#[test]
fn test_or_disjoint_order_is_immaterial() {
    // Two non-overlapping patterns: reordering leaves every output
    // unchanged.
    let neg = |x: &i32| if *x < 0 { Some("neg") } else { None };
    let pos = |x: &i32| if *x > 0 { Some("pos") } else { None };
    for input in [-2, 2] {
        let one = or(extract(neg), extract(pos)).match_pattern(&input);
        let two = or(extract(pos), extract(neg)).match_pattern(&input);
        assert_eq!(one, two);
    }
}

#[test]
fn test_or_propagates_last_failure() {
    let none_a = extract(|_x: &i32| Option::<i32>::None);
    let none_b = extract(|_x: &i32| Option::<i32>::None);
    assert_eq!(or(none_a, none_b).match_pattern(&0), Err(()));
}

#[test]
fn test_never_is_identity_for_or() {
    let p = extract(|x: &i32| Some(*x + 1));
    assert_eq!(or(never(), p).match_pattern(&1), Ok(2));
    let p = extract(|x: &i32| Some(*x + 1));
    assert_eq!(or(p, never()).match_pattern(&1), Ok(2));
}

#[test]
fn test_always_ignores_input() {
    let p = always::<i32, i32>(7);
    assert_eq!(p.match_pattern(&0), Ok(7));
    assert_eq!(p.match_pattern(&123), Ok(7));
}

#[test]
fn test_and_then_sequences() {
    let first = extract(|s: &&str| s.strip_prefix("a").map(|t| t.to_string()));
    let second = extract(|s: &String| if s.is_empty() { None } else { Some(s.len()) });
    let p = and_then(first, second);
    assert_eq!(p.match_pattern(&"abc"), Ok(2));
    assert_eq!(p.match_pattern(&"a"), Err(()));
    assert_eq!(p.match_pattern(&"xbc"), Err(()));
}

#[test]
fn test_optional_never_fails() {
    let p = optional(extract(|x: &i32| if *x > 0 { Some(*x) } else { None }));
    assert_eq!(p.match_pattern(&3), Ok(Some(3)));
    assert_eq!(p.match_pattern(&-3), Ok(None));
}

#[test]
fn test_pair_needs_both() {
    let p = pair(
        extract(|x: &i32| if *x > 0 { Some(*x) } else { None }),
        predicate(|x: &i32| x % 2 == 0),
    );
    assert_eq!(p.match_pattern(&4), Ok((4, ())));
    assert_eq!(p.match_pattern(&3), Err(()));
    assert_eq!(p.match_pattern(&-4), Err(()));
}
