use derivable_object_pool::prelude::ObjectPool;
use derivable_object_pool::prelude::Pool;
use std::sync::OnceLock;

#[derive(Default)]
#[allow(unused)]
struct Test {
    a: i32,
    b: f64,
    c: bool,
    d: Vec<usize>,
}

static TEST_OBJECT_POOL: OnceLock<Pool<Test, fn() -> Test>> = OnceLock::new();

impl ObjectPool for Test {
    type Generator = fn() -> Test;

    fn pool<'a>() -> &'a Pool<Self, fn() -> Test> {
        TEST_OBJECT_POOL.get_or_init(|| Pool::new(Test::default as fn() -> Test))
    }
}

#[test]
fn lib_new_objects() {
    let obj = Test::new();
    drop(obj);
    assert_eq!(1, Test::pool().len());

    let obj = Test::new();
    assert_eq!(0, Test::pool().len());
    let obj2 = Test::new();

    drop(obj);
    drop(obj2);

    assert_eq!(2, Test::pool().len());
}

#[allow(unused)]
struct Test2 {
    a: i32,
    b: f64,
    c: bool,
    d: Vec<usize>,
}

impl Test2 {
    fn new_item() -> Self {
        Self {
            a: 0,
            b: 0.0,
            c: false,
            d: Vec::new(),
        }
    }
}

static TEST2_OBJECT_POOL: OnceLock<Pool<Test2, fn() -> Test2>> = OnceLock::new();

impl ObjectPool for Test2 {
    type Generator = fn() -> Test2;

    fn pool<'a>() -> &'a Pool<Self, fn() -> Test2> {
        TEST2_OBJECT_POOL.get_or_init(|| Pool::new(Test2::new_item as fn() -> Test2))
    }
}

#[test]
fn new_objects_with_generator() {
    let obj = Test2::new();
    drop(obj);
    assert_eq!(1, Test2::pool().len());

    let obj = Test2::new();
    assert_eq!(0, Test2::pool().len());
    let obj2 = Test2::new();

    drop(obj);
    drop(obj2);

    assert_eq!(2, Test2::pool().len());
}
