use frost_core::fundamental::structures::Resource;
use frost_core::fundamental::structures::ResourcePool;
use frost_core::fundamental::structures::ResourcePoolTyped;
use frost_core::fundamental::structures::INVALID_INDEX;

#[derive(Default)]
struct Record {
    index: u32,
    name: String,
}

impl Resource for Record {
    fn get_name(&self) -> &str {
        &self.name
    }

    fn get_pool_index(&self) -> u32 {
        self.index
    }

    fn set_pool_index(&mut self, index: u32) -> u32 {
        let previous = self.index;
        self.index = index;
        previous
    }
}

#[test]
fn obtain_without_release_counts_up() {
    let mut pool = ResourcePool::new();
    pool.init(4, 16);
    assert_eq!(pool.obtain_resource(), 0);
    assert_eq!(pool.obtain_resource(), 1);
    assert_eq!(pool.obtain_resource(), 2);
    assert_eq!(pool.obtain_resource(), 3);
    assert_eq!(pool.used_indices(), 4);
}

#[test]
fn exhausted_pool_returns_invalid_index() {
    let mut pool = ResourcePool::new();
    pool.init(3, 8);
    for _ in 0..3 {
        assert!(pool.obtain_resource() < 3);
    }
    assert_eq!(pool.obtain_resource(), INVALID_INDEX);
    assert_eq!(pool.obtain_resource(), u32::MAX);
    assert_eq!(pool.used_indices(), 3);
}

#[test]
fn released_index_is_obtained_next() {
    let mut pool = ResourcePool::new();
    pool.init(4, 16);
    for expected in 0..4 {
        assert_eq!(pool.obtain_resource(), expected);
    }
    pool.release_resource(2);
    assert_eq!(pool.obtain_resource(), 2);
}

#[test]
fn typed_pool_writes_the_slot_into_the_record() {
    let mut pool: ResourcePoolTyped<Record> = ResourcePoolTyped::new();
    pool.init(2);
    let first = pool.obtain().map(|record| record.get_pool_index());
    assert_eq!(first, Some(0));
    let second = pool.obtain().map(|record| {
        record.name = String::from("second");
        record.get_pool_index()
    });
    assert_eq!(second, Some(1));
    assert!(pool.obtain().is_none());
    pool.release(0);
    let leaked = pool.shutdown();
    assert_eq!(leaked.len(), 1);
    assert_eq!(leaked[0].index, 1);
    assert_eq!(leaked[0].name, "second");
}

#[test]
fn obtained_indices_are_distinct_and_in_range() {
    let mut pool = ResourcePool::new();
    pool.init(16, 4);
    let mut seen = vec![false; 16];
    for _ in 0..16 {
        let index = pool.obtain_resource();
        assert!(index < 16);
        assert!(!seen[index as usize]);
        seen[index as usize] = true;
    }
}

#[test]
fn release_on_a_pool_with_nothing_handed_out_is_ignored() {
    let mut pool = ResourcePool::new();
    pool.init(2, 4);
    pool.release_resource(1);
    assert_eq!(pool.used_indices(), 0);
    assert_eq!(pool.obtain_resource(), 0);
    assert_eq!(pool.obtain_resource(), 1);
    assert_eq!(pool.obtain_resource(), INVALID_INDEX);
}

#[test]
fn released_indices_come_back_last_released_first() {
    let mut pool = ResourcePool::new();
    pool.init(4, 4);
    for _ in 0..3 {
        pool.obtain_resource();
    }
    pool.release_resource(0);
    pool.release_resource(2);
    assert_eq!(pool.used_indices(), 1);
    assert_eq!(pool.obtain_resource(), 2);
    assert_eq!(pool.obtain_resource(), 0);
    assert_eq!(pool.obtain_resource(), 3);
    assert_eq!(pool.obtain_resource(), INVALID_INDEX);
}

#[test]
fn double_release_puts_the_index_on_the_free_list_twice() {
    let mut pool = ResourcePool::new();
    pool.init(4, 4);
    pool.obtain_resource();
    pool.obtain_resource();
    pool.release_resource(1);
    assert!(!pool.is_outstanding(1));
    pool.release_resource(1);
    assert_eq!(pool.obtain_resource(), 1);
    assert_eq!(pool.obtain_resource(), 1);
}

#[test]
fn free_all_resources_seeds_the_free_list_again() {
    let mut pool = ResourcePool::new();
    pool.init(3, 4);
    pool.obtain_resource();
    pool.obtain_resource();
    pool.release_resource(0);
    pool.write(5, 9);
    pool.free_all_resources();
    assert_eq!(pool.used_indices(), 0);
    assert_eq!(pool.obtain_resource(), 0);
    assert_eq!(pool.obtain_resource(), 1);
    assert_eq!(pool.obtain_resource(), 2);
    assert_eq!(pool.obtain_resource(), INVALID_INDEX);
    assert_eq!(pool.read(5), 9);
}

#[test]
fn slots_lie_one_after_the_other() {
    let mut pool = ResourcePool::new();
    pool.init(4, 24);
    assert_eq!(pool.pool_size(), 4);
    assert_eq!(pool.access_resource(0), 0);
    assert_eq!(pool.access_resource(1), 24);
    assert_eq!(pool.access_resource(3), 72);
    pool.write(24, 1);
    pool.write(47, 2);
    let slot = pool.access_resource_const(1);
    assert_eq!(slot.len(), 24);
    assert_eq!(slot[0], 1);
    assert_eq!(slot[23], 2);
    assert_eq!(pool.access_resource_const(0), &[0u8; 24][..]);
}

#[test]
fn outstanding_indices_are_those_not_on_the_free_list() {
    let mut pool = ResourcePool::new();
    pool.init(5, 1);
    for _ in 0..4 {
        pool.obtain_resource();
    }
    pool.release_resource(1);
    assert!(pool.is_outstanding(0));
    assert!(!pool.is_outstanding(1));
    assert!(pool.is_outstanding(2));
    assert!(pool.is_outstanding(3));
    assert!(!pool.is_outstanding(4));
    assert!(!pool.is_outstanding(5));
    assert!(!pool.is_outstanding(INVALID_INDEX));
    assert_eq!(pool.outstanding_indices(), vec![0, 2, 3]);
}

#[test]
fn pool_shutdown_leaves_no_slots() {
    let mut pool = ResourcePool::new();
    pool.init(2, 2);
    pool.obtain_resource();
    pool.shutdown();
    assert_eq!(pool.pool_size(), 0);
    assert_eq!(pool.used_indices(), 0);
    assert_eq!(pool.obtain_resource(), INVALID_INDEX);
}

#[test]
fn typed_pool_reuses_the_slot_that_was_released() {
    let mut pool: ResourcePoolTyped<Record> = ResourcePoolTyped::new();
    pool.init(4);
    for expected in 0..4 {
        let index = pool.obtain().map(|record| record.get_pool_index());
        assert_eq!(index, Some(expected));
    }
    pool.release(2);
    let again = pool.obtain().map(|record| record.get_pool_index());
    assert_eq!(again, Some(2));
    assert!(pool.obtain().is_none());
}

#[test]
fn typed_pool_release_goes_by_the_index_the_record_reports() {
    let mut pool: ResourcePoolTyped<Record> = ResourcePoolTyped::new();
    pool.init(3);
    pool.obtain();
    pool.obtain();
    // The record in slot 1 claims to live in slot 0.
    pool.get(1).set_pool_index(0);
    pool.release(1);
    assert_eq!(pool.obtain().map(|record| record.get_pool_index()), Some(0));
    // An index that names no slot is not passed on.
    pool.get(1).set_pool_index(77);
    pool.release(1);
    assert_eq!(pool.obtain().map(|record| record.get_pool_index()), Some(2));
    assert!(pool.obtain().is_none());
}

#[test]
fn typed_pool_get_reaches_the_record_in_place() {
    let mut pool: ResourcePoolTyped<Record> = ResourcePoolTyped::new();
    pool.init(2);
    pool.get(1).name = String::from("texture");
    assert_eq!(pool.get_const(1).get_name(), "texture");
    assert_eq!(pool.get_const(0).get_name(), "");
}

#[test]
fn typed_pool_reports_every_leak_in_ascending_order() {
    let mut pool: ResourcePoolTyped<Record> = ResourcePoolTyped::new();
    pool.init(4);
    for name in ["a", "b", "c", "d"] {
        if let Some(record) = pool.obtain() {
            record.name = String::from(name);
        }
    }
    pool.release(1);
    let leaked = pool.shutdown();
    let indices: Vec<u32> = leaked.iter().map(|leak| leak.index).collect();
    let names: Vec<&str> = leaked.iter().map(|leak| leak.name.as_str()).collect();
    assert_eq!(indices, vec![0, 2, 3]);
    assert_eq!(names, vec!["a", "c", "d"]);
    assert!(pool.obtain().is_none());
    assert!(pool.shutdown().is_empty());
}
