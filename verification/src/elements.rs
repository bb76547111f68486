pub mod element;
pub mod line;
pub mod rectangle;
pub mod timed_element;
