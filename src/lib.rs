pub mod group;
pub mod ring;
