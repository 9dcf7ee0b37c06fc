mod audio;
mod determiner;
mod image;
mod locale;
mod open_graph_object;
mod video;

pub use audio::{Audio, AudioV};
pub use determiner::{spec_determiner, Determiner};
pub use image::{Image, ImageV};
pub use locale::{Locale, LocaleV};
pub use open_graph_object::{OpenGraphObject, OpenGraphObjectV};
pub use video::{Video, VideoV};
