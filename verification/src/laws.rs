//! What the commander promises, said of what it starts from and what comes out.

pub mod comparing;
pub mod confirming;
pub mod drawing;
pub mod listing;
pub mod marking;
pub mod moving;
pub mod receiving;
pub mod settling;
pub mod showing;
pub mod steering;
pub mod watching;
pub mod working;
