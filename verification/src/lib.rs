//! A generational-index arena: a container that hands out small, copyable
//! handles to stored values. Each handle carries the generation its slot had
//! when the value was stored, so a handle that outlives its value is detected
//! at lookup time instead of silently aliasing whatever was stored there next.

mod arena;
mod handle;
mod laws;

pub use arena::ErrorKind;
pub use arena::GenerationalArray;
pub use arena::GenerationalArrayResult;
pub use arena::GenerationalArrayResultMut;
pub use arena::count_some;
pub use handle::GenerationalIndex;
pub use handle::decimal_digits;
pub use laws::lemma_capacity_monotonic;
pub use laws::lemma_generations_never_decrease;
pub use laws::lemma_insert_round_trip;
pub use laws::lemma_live_count_accounting;
pub use laws::lemma_one_valid_handle_per_slot;
pub use laws::lemma_remove_invalidates;
pub use laws::lemma_reuse_bumps_generation;
pub use laws::lemma_stale_handle_stays_stale;
