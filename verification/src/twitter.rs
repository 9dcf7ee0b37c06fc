mod creator;
mod twitter_graph_object;
mod image;
mod player;

pub use creator::{Creator, CreatorV};
pub use image::{Image, ImageV};
pub use player::{Player, PlayerV};
pub use twitter_graph_object::{TwitterGraphObject, TwitterGraphObjectV};
