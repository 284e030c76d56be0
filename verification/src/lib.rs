//! A circular buffer-like queue with a fixed capacity.
//!
//! Values are pushed continuously; once the capacity is reached, every new
//! value drives out the oldest stored one, which is handed back to the caller.
//!
//! Every operation carries a contract over the queue's logical content: the
//! sequence of stored values from the oldest to the newest, which is the view
//! of a [`CircularQueue`]. How the values lie in the storage is kept behind
//! that view.
//!
//! A capacity of zero is legal. A queue built with it is inert: it takes any
//! number of pushes, stays empty, and is empty and full at once.
//!
//! - [`queue`]: the queue and its operations.
//! - [`iter`], [`iter_mut`]: traversals in both directions, read-only and for
//!   change.
//! - [`equality`]: equality by content, whatever the capacity.
//! - [`pushes`]: what runs of pushes do to a queue.
//! - [`rotate`]: reversal of a stretch of storage in place.
//! - [`serde_support`]: the serialized form and the rules for reading it back.

pub mod equality;
pub mod iter;
pub mod iter_mut;
pub mod pushes;
pub mod queue;
pub mod rotate;
pub mod serde_support;

pub use iter::{AscIter, Iter};
pub use iter_mut::{AscIterMut, IterMut};
pub use queue::CircularQueue;
