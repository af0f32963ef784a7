//! Today's astronomy picture, cached for the day, and the archive FITS
//! files that relate to it.

pub mod apod;
pub mod error;
pub mod mast;
pub mod server;

pub use apod::{Apod, EarendelApod};
pub use error::EarendelError;
pub use mast::{EarendelFits, MastRequest, MastResponse, MastResponseEntry, MastResponsePaging};
pub use server::{CalendarDay, EarendelServer};

