use wrapnum::WrapNum;

#[test]
fn make_usize() {
    let mut result = WrapNum::new(50);
    for _ in 0..60 {
        result += 1;
        println!("{}", result.to_string());
    }
}

#[test]
fn months() {
    let mut months = WrapNum::new(11);
    for _ in 0..11 {
        months += 1;
    }
    assert_eq!(months.value, 0);
}

#[test]
fn custom_min() {
    let mut mins = WrapNum::new_min_max(5, 5, 7);
    mins += 3;
    // 5+1 = 6
    // 6+1 = 7 (wrapped) = 5
    // 5+1 = 6
    assert_eq!(mins.value, 6);
}

#[test]
fn can_convert() {
    let mut mins = WrapNum::new_inclusive(5);
    mins += 5 as u16;
    assert_eq!(mins.value, 5);
}

#[test]
fn has_indexing() {
    let here = WrapNum::new(5);
    let oh = vec![10, 9, 8, 7, 6, 5, 4, 3, 2, 1];
    assert_eq!(oh[here], 10);
}

#[test]
fn are_equals() {
    let mut here = WrapNum::new(6);
    here += 5;
    println!("{}", here.to_string());
    let there = WrapNum::new(50);
    assert_eq!(here, there + 5);
}

#[test]
fn into_integer() {
    let here = WrapNum::new_min_max(420, 0, 69420);
    let hmm: WrapNum<u32> = 420.into();
    let as_u32 = u32::from(here);
    assert_eq!(as_u32, 420);
    assert_eq!(hmm.value, 420);
    assert_eq!(hmm.max, u32::MAX);
}
