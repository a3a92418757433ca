use derivable_object_pool::prelude::ObjectPool;
use derivable_object_pool::prelude::Pool;
use std::sync::OnceLock;

#[derive(Default)]
#[allow(unused)]
struct Test {
    a: u32,
    b: u32,
}

static TEST_OBJECT_POOL: OnceLock<Pool<Test, fn() -> Test>> = OnceLock::new();

impl ObjectPool for Test {
    type Generator = fn() -> Test;

    fn pool<'a>() -> &'a Pool<Self, fn() -> Test> {
        TEST_OBJECT_POOL.get_or_init(|| Pool::new(Test::default as fn() -> Test))
    }
}

#[test]
fn tests_new_objects() {
    let obj = Test::new();
    drop(obj);
    assert_eq!(1, Test::pool().len());

    let obj = Test::new();
    assert_eq!(0, Test::pool().len());
    let obj2 = Test::new();

    drop(obj);
    drop(obj2);

    assert_eq!(2, Test::pool().len());
}
