use nat2arr::Columnar;
use nat2arr::is_negative;
use nat2arr::nat2arr16i;
use nat2arr::nat2arr32i;
use nat2arr::nat2arr64i;
use nat2arr::nat2arr8i;
use nat2arr::natural2array;
use nat2arr::natural2builder;
use nat2arr::negative2none;
use nat2arr::opt2arr16i;
use nat2arr::opt2arr32i;
use nat2arr::opt2arr64i;
use nat2arr::opt2arr8i;
use nat2arr::opt2builder;
use nat2arr::opt_negative2none;
use nat2arr::opts2array;

#[test]
fn test_multi() {
    let v: Vec<i16> = vec![0, 42, -1, 634, -42, 333];
    let pa = nat2arr16i(&v);
    assert_eq!(6, pa.len());
    assert_eq!(2, pa.null_count());
    assert_eq!(pa.values(), vec![0, 42, 0, 634, 0, 333]);
}

#[test]
fn lib_test_multi() {
    let v: Vec<Option<i16>> = vec![
        Some(0),
        Some(42),
        Some(-1),
        Some(634),
        None,
        Some(-42),
        Some(333),
    ];
    let pa = opt2arr16i(&v);
    assert_eq!(7, pa.len());
    assert_eq!(3, pa.null_count());
    assert_eq!(pa.values(), vec![0, 42, 0, 634, 0, 0, 333]);
}

#[test]
fn test_is_negative() {
    assert!(is_negative(-1i8));
    assert!(!is_negative(0i8));
    assert!(!is_negative(1i8));
    assert!(is_negative(i64::MIN));
    assert!(!is_negative(i64::MAX));
    assert!(is_negative(-1i16));
    assert!(!is_negative(0i32));
}

#[test]
fn test_negative2none() {
    assert_eq!(negative2none(-1i16), None);
    assert_eq!(negative2none(i32::MIN), None);
    assert_eq!(negative2none(0i64), Some(0));
    assert_eq!(negative2none(7i8), Some(7));
}

#[test]
fn test_opt_negative2none() {
    assert_eq!(opt_negative2none::<i16>(None), None);
    assert_eq!(opt_negative2none(Some(-2i16)), None);
    assert_eq!(opt_negative2none(Some(3i16)), Some(3));
    assert_eq!(opt_negative2none(Some(0i64)), Some(0));
}

#[test]
fn test_appenders() {
    let mut b = <i16 as Columnar>::builder_with_capacity(2);
    natural2builder(5i16, &mut b);
    natural2builder(-5i16, &mut b);
    opt2builder(Some(9i16), &mut b);
    opt2builder(Some(-9i16), &mut b);
    opt2builder(None::<i16>, &mut b);
    let pa = <i16 as Columnar>::builder_finish(b);
    assert_eq!(5, pa.len());
    assert_eq!(3, pa.null_count());
    assert_eq!(pa.values(), vec![5, 0, 9, 0, 0]);
}

#[test]
fn test_capacity_hint_immaterial() {
    let v: Vec<i16> = vec![3, -7, 0, -2, 11];
    let small = natural2array(&v, 1);
    let exact = natural2array(&v, v.len());
    let large = natural2array(&v, 100);
    assert_eq!(small.len(), 5);
    assert_eq!(exact.len(), 5);
    assert_eq!(large.len(), 5);
    assert_eq!(small.null_count(), 2);
    assert_eq!(exact.null_count(), 2);
    assert_eq!(large.null_count(), 2);
    assert_eq!(small.values(), exact.values());
    assert_eq!(exact.values(), large.values());
}

#[test]
fn test_capacity_hint_immaterial_opts() {
    let v: Vec<Option<i64>> = vec![Some(3), None, Some(-7), Some(0)];
    let small = opts2array(&v, 0);
    let large = opts2array(&v, 64);
    assert_eq!(small.len(), 4);
    assert_eq!(large.len(), 4);
    assert_eq!(small.null_count(), 2);
    assert_eq!(large.null_count(), 2);
    assert_eq!(small.values(), large.values());
}

#[test]
fn test_rebuild_identical() {
    let v: Vec<i32> = vec![1, -1, 2, -2, 0];
    let first = nat2arr32i(&v);
    let second = nat2arr32i(&v);
    assert_eq!(first.len(), second.len());
    assert_eq!(first.null_count(), second.null_count());
    assert_eq!(first.values(), second.values());
}

#[test]
fn test_empty_input() {
    let v: Vec<i8> = vec![];
    let pa = nat2arr8i(&v);
    assert_eq!(0, pa.len());
    assert_eq!(0, pa.null_count());
    assert_eq!(pa.values(), Vec::<i8>::new());
}

#[test]
fn test_all_negative() {
    let v: Vec<i64> = vec![-1, -2, -3];
    let pa = nat2arr64i(&v);
    assert_eq!(3, pa.len());
    assert_eq!(3, pa.null_count());
    assert_eq!(pa.values(), vec![0, 0, 0]);
}

#[test]
fn test_widths_nat() {
    let pa8 = nat2arr8i(&vec![1i8, -1]);
    assert_eq!(pa8.values(), vec![1, 0]);
    assert_eq!(pa8.null_count(), 1);
    let pa32 = nat2arr32i(&vec![70000i32, -70000]);
    assert_eq!(pa32.values(), vec![70000, 0]);
    assert_eq!(pa32.null_count(), 1);
    let pa64 = nat2arr64i(&vec![i64::MAX, i64::MIN]);
    assert_eq!(pa64.values(), vec![i64::MAX, 0]);
    assert_eq!(pa64.null_count(), 1);
}

#[test]
fn test_widths_opt() {
    let pa8 = opt2arr8i(&vec![Some(1i8), None, Some(-1)]);
    assert_eq!(pa8.values(), vec![1, 0, 0]);
    assert_eq!(pa8.null_count(), 2);
    let pa32 = opt2arr32i(&vec![Some(9i32), None]);
    assert_eq!(pa32.values(), vec![9, 0]);
    assert_eq!(pa32.null_count(), 1);
    let pa64 = opt2arr64i(&vec![None, Some(8i64)]);
    assert_eq!(pa64.values(), vec![0, 8]);
    assert_eq!(pa64.null_count(), 1);
}

#[test]
fn test_validity_positions() {
    let v: Vec<i16> = vec![0, 42, -1, 634, -42, 333];
    let pa = nat2arr16i(&v);
    assert_eq!(pa.null_at(0), Some(false));
    assert_eq!(pa.null_at(1), Some(false));
    assert_eq!(pa.null_at(2), Some(true));
    assert_eq!(pa.null_at(3), Some(false));
    assert_eq!(pa.null_at(4), Some(true));
    assert_eq!(pa.null_at(5), Some(false));
    assert_eq!(pa.null_at(6), None);
}

#[test]
fn test_validity_no_nulls() {
    let pa = nat2arr32i(&vec![1i32, 2, 3]);
    assert_eq!(pa.null_at(0), Some(false));
    assert_eq!(pa.null_at(1), Some(false));
    assert_eq!(pa.null_at(2), Some(false));
    assert_eq!(pa.null_at(3), None);
    assert_eq!(pa.null_count(), 0);
}

#[test]
fn test_default_capacity() {
    assert_eq!(nat2arr::CAPACITY_DEFAULT, 1024);
    let v: Vec<i16> = (0..2048).map(|i| if i % 2 == 0 { i as i16 } else { -1 }).collect();
    let pa = nat2arr::natural2array_default(&v);
    assert_eq!(2048, pa.len());
    assert_eq!(1024, pa.null_count());
}
