pub mod io;
pub mod sync;
