pub mod ownable;
pub mod to_borrowed;

pub use ownable::Ownable;
pub use to_borrowed::ToBorrowed;
