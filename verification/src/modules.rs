//! What each endpoint of the service decides, free of any transport.

pub mod day_five;
pub mod day_nine;
pub mod day_nineteen;
pub mod day_twelve;
pub mod day_twenty_three;
