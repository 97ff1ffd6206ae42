//! Configuration of an embeddable terminal widget: the font, the colour
//! theme and the factory of the pseudo-terminal backend, gathered in one
//! settings value that the widget reads when it is created.

pub mod backend;
pub mod font;
pub mod settings;
