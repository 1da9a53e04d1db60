pub mod dice;
pub mod items;
pub mod modes;
pub mod resolution;
pub mod scenes;
pub mod races;
pub mod sex;
pub mod skills;
pub mod terrain;
