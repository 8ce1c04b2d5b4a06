pub mod font_asset;
pub mod font_reader;
