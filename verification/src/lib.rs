//! An in-memory document model for a vector-drawing canvas: a journal of
//! pages, each page a spatially indexed store of shapes that are ordered by
//! layer and by insertion time.

pub mod elements;
pub mod envelope;
pub mod index;
pub mod iterator;
pub mod journal;
pub mod mark;
pub mod mutable_iter;
pub mod page;
pub mod page_state;
pub mod point;

pub use crate::elements::element::Element;
pub use crate::elements::element::ElementMut;
pub use crate::elements::element::ElementRef;
pub use crate::elements::element::Shape;
pub use crate::elements::line::Line;
pub use crate::elements::rectangle::Rectangle;
pub use crate::elements::timed_element::TimedElement;
pub use crate::envelope::Envelope;
pub use crate::iterator::SelectionIter;
pub use crate::journal::Journal;
pub use crate::page::Page;
pub use crate::page::SelectByAddressFunction;
pub use crate::page_state::PageState;
pub use crate::page_state::PageStep;
pub use crate::point::Point;
