use higher_order_core::{Arg, Call, Callable, Fun, Func, HMap, Ho};
use std::sync::Arc;

/// Higher order 3D point over integers.
#[derive(Clone)]
struct Point<T = ()>
where
    i64: Ho<T>,
{
    x: Fun<T, i64>,
    y: Fun<T, i64>,
    z: Fun<T, i64>,
}

type PointFunc<T> = Point<Arg<T>>;

impl<T: Clone> Ho<Arg<T>> for Point {
    type Fun = PointFunc<T>;
}

impl<T: Copy> Call<T> for Point {
    fn call(f: &Self::Fun, val: T) -> Point {
        Point::<()> {
            x: <i64 as Call<T>>::call(&f.x, val),
            y: <i64 as Call<T>>::call(&f.y, val),
            z: <i64 as Call<T>>::call(&f.z, val),
        }
    }
}

fn line() -> PointFunc<i64> {
    Point {
        x: Arc::new(|t: i64| 10 + t),
        y: Arc::new(|t: i64| 20 - 2 * t),
        z: Arc::new(|t: i64| t * t),
    }
}

#[test]
fn unit_tag_function_type_is_the_value_type() {
    let a: Fun<(), u32> = 7u32;
    assert_eq!(a, 7u32);
    let b: Fun<(), i64> = -3i64;
    assert_eq!(b, -3i64);
    let c: Fun<(), Vec<u8>> = vec![1u8, 2, 3];
    assert_eq!(c, vec![1u8, 2, 3]);
}

#[test]
fn unit_tag_point_holds_plain_values() {
    let p: Point = Point { x: 1, y: 2, z: 3 };
    let q: Fun<(), Point> = p.clone();
    assert_eq!((q.x, q.y, q.z), (1, 2, 3));
    assert_eq!((p.x, p.y, p.z), (1, 2, 3));
}

#[test]
fn arg_carries_its_payload() {
    let a = Arg(5u8);
    let b = a;
    assert_eq!(a.0, 5);
    assert_eq!(b.0, 5);
    let c = Arg(vec![1u8, 2]).clone();
    assert_eq!(c.0, vec![1u8, 2]);
}

#[test]
fn callable_invokes_the_function() {
    let double = |x: u32| x * 2;
    assert_eq!(Callable::invoke(&double, 21u32), 42u32);
    let h: Func<u32, u32> = Arc::new(double);
    assert_eq!(h.invoke(4), 8);
}

#[test]
fn leaf_call_returns_what_the_handle_returns() {
    let h: Func<u32, u64> = Arc::new(|x: u32| u64::from(x) * 3 + 1);
    for x in [0u32, 1, 2, 17, 1000, u32::MAX] {
        assert_eq!(<u64 as Call<u32>>::call(&h, x), u64::from(x) * 3 + 1);
    }
}

#[test]
fn leaf_call_for_every_integer_kind() {
    let a: Func<i32, u8> = Arc::new(|x: i32| (x + 1) as u8);
    assert_eq!(<u8 as Call<i32>>::call(&a, 4), 5u8);
    let b: Func<i32, u16> = Arc::new(|x: i32| (x + 2) as u16);
    assert_eq!(<u16 as Call<i32>>::call(&b, 4), 6u16);
    let c: Func<i32, u32> = Arc::new(|x: i32| (x + 3) as u32);
    assert_eq!(<u32 as Call<i32>>::call(&c, 4), 7u32);
    let d: Func<i32, u64> = Arc::new(|x: i32| (x + 4) as u64);
    assert_eq!(<u64 as Call<i32>>::call(&d, 4), 8u64);
    let e: Func<i32, usize> = Arc::new(|x: i32| (x + 5) as usize);
    assert_eq!(<usize as Call<i32>>::call(&e, 4), 9usize);
    let f: Func<i32, i8> = Arc::new(|x: i32| (x - 10) as i8);
    assert_eq!(<i8 as Call<i32>>::call(&f, 4), -6i8);
    let g: Func<i32, i16> = Arc::new(|x: i32| (x - 20) as i16);
    assert_eq!(<i16 as Call<i32>>::call(&g, 4), -16i16);
    let h: Func<i32, i32> = Arc::new(|x: i32| x - 30);
    assert_eq!(<i32 as Call<i32>>::call(&h, 4), -26i32);
    let i: Func<i32, i64> = Arc::new(|x: i32| i64::from(x) - 40);
    assert_eq!(<i64 as Call<i32>>::call(&i, 4), -36i64);
    let j: Func<i32, isize> = Arc::new(|x: i32| (x - 50) as isize);
    assert_eq!(<isize as Call<i32>>::call(&j, 4), -46isize);
}

#[test]
fn handle_is_shared_between_holders() {
    let h: Func<u8, u8> = Arc::new(|x: u8| x.wrapping_add(1));
    let k: Fun<Arg<u8>, u8> = h.clone();
    assert_eq!(Arc::strong_count(&h), 2);
    assert_eq!(<u8 as Call<u8>>::call(&h, 1), 2);
    assert_eq!(<u8 as Call<u8>>::call(&k, 255), 0);
    assert_eq!(<u8 as Call<u8>>::call(&h, 1), 2);
}

#[test]
fn handle_captures_its_context() {
    let offset = 100u32;
    let table = vec![5u32, 6, 7];
    let h: Func<usize, u32> = Arc::new(move |i: usize| table[i] + offset);
    assert_eq!(<u32 as Call<usize>>::call(&h, 0), 105);
    assert_eq!(<u32 as Call<usize>>::call(&h, 2), 107);
}

#[test]
fn composite_call_calls_every_field() {
    let f = line();
    let p = <Point as Call<i64>>::call(&f, 3);
    assert_eq!((p.x, p.y, p.z), (13, 14, 9));
    let q = <Point as Call<i64>>::call(&f, 0);
    assert_eq!((q.x, q.y, q.z), (10, 20, 0));
}

#[test]
fn composite_function_keeps_its_fields() {
    let f = line();
    assert_eq!(f.x.invoke(1), 11);
    assert_eq!(f.y.invoke(1), 18);
    assert_eq!(f.z.invoke(5), 25);
}

#[test]
fn map_over_composite_leaves() {
    let f = line();
    let q: [Point; 2] = [0i64, 1].hmap(&f);
    assert_eq!((q[0].x, q[0].y, q[0].z), (10, 20, 0));
    assert_eq!((q[1].x, q[1].y, q[1].z), (11, 18, 1));
    let r: Vec<[Point; 2]> = vec![[2i64, 3], [4, 5]].hmap(&f);
    assert_eq!(r.len(), 2);
    assert_eq!((r[1][1].x, r[1][1].y, r[1][1].z), (15, 10, 25));
}

fn crosses_threads<H: Send + Sync + Clone + 'static>(_: &H) -> bool {
    true
}

#[test]
fn handle_may_be_sent_and_shared_between_threads() {
    let h: Func<u32, u32> = Arc::new(|x: u32| x + 1);
    assert!(crosses_threads(&h));
    let f = line();
    assert!(crosses_threads(&f.x));
}
