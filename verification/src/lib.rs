//! Workloads for comparing in-memory containers.
//!
//! Each public workload function takes a bound `max`, builds one container,
//! performs `max` insert (or lookup) operations against it, and discards it:
//! the shape a timing harness invokes repeatedly. The builders underneath
//! return the container instead of discarding it, and their contracts pin
//! down its final contents exactly, so what every workload leaves behind is
//! stated and proved rather than assumed.

mod laws;
mod model;
mod pooled;
mod sequences;
mod sharded;
mod tables;

pub use laws::lemma_concurrent_fill;
pub use laws::lemma_locking_strategies_agree;
pub use laws::lemma_prealloc_irrelevant_map;
pub use laws::lemma_prealloc_irrelevant_seq;
pub use laws::lemma_prealloc_irrelevant_set;
pub use laws::lemma_read_only_observation;
pub use laws::lemma_sequential_fill;
pub use model::empty_map;
pub use model::ident_map;
pub use model::ident_seq;
pub use model::ident_set;
pub use model::lemma_ident_map_len;
pub use model::lemma_ident_set_len;
pub use model::rev_seq;
pub use pooled::hashmap_rwlock_read;
pub use pooled::hashmap_rwlock_write;
pub use pooled::hashmap_threaded;
pub use pooled::mutex_threaded_filled;
pub use pooled::rwlock_read_scanned;
pub use pooled::rwlock_threaded_filled;
pub use sequences::deque_front_inserted;
pub use sequences::deque_front_pushed;
pub use sequences::deque_front_pushed_prealloc;
pub use sequences::vec_inserted;
pub use sequences::vec_inserted_prealloc;
pub use sequences::vec_prealloc_insert;
pub use sequences::vec_prealloc_push;
pub use sequences::vec_pushed;
pub use sequences::vec_pushed_prealloc;
pub use sequences::vec_simple_insert;
pub use sequences::vec_simple_push;
pub use sequences::vecdeque_prealloc;
pub use sequences::vecdeque_simple;
pub use sequences::vecdeque_simple_insert;
pub use sharded::dash_contents;
pub use sharded::dashmap_filled;
pub use sharded::dashmap_filled_prealloc;
pub use sharded::dashmap_prealloc;
pub use sharded::dashmap_simple;
pub use sharded::dashmap_threaded;
pub use sharded::dashmap_threaded_filled;
pub use tables::btreemap_filled;
pub use tables::btreemap_simple;
pub use tables::hashmap_filled;
pub use tables::hashmap_filled_prealloc;
pub use tables::hashmap_prealloc;
pub use tables::hashmap_simple;
pub use tables::hashset_filled;
pub use tables::hashset_filled_prealloc;
pub use tables::hashset_prealloc;
pub use tables::hashset_simple;
